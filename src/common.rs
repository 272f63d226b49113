//! The leaf values a SELECT statement is built from: source spans,
//! identifiers, table names, predicate terms and ordering clauses.

use vstd::prelude::*;

verus! {

/// A place in the source text, kept only for error reporting.
#[derive(Debug, Clone, PartialEq)]
pub struct Span {
    pub text: String,
}

impl Span {
    /// A span covering the given source text.
    pub fn from(text: &str) -> (r: Span)
        ensures
            r.text@ == text@,
    {
        Span { text: String::from_str(text) }
    }
}

/// A name as written in the statement.
#[derive(Debug, Clone, PartialEq)]
pub struct Identifier {
    pub text: String,
}

impl View for Identifier {
    type V = Seq<char>;

    open spec fn view(&self) -> Seq<char> {
        self.text@
    }
}

impl Identifier {
    /// Builds an identifier from its source text; the span is kept by
    /// callers for error reporting and not inspected here.
    pub fn parse(text: &str, _span: Span) -> (r: Identifier)
        ensures
            r@ == text@,
    {
        Identifier { text: String::from_str(text) }
    }

    /// The identifier's text.
    pub fn as_str(&self) -> (r: &str)
        ensures
            r@ == self@,
    {
        self.text.as_str()
    }

    /// A copy of the identifier.
    pub fn duplicate(&self) -> (r: Identifier)
        ensures
            r@ == self@,
    {
        Identifier { text: self.text.clone() }
    }

    /// The identifier as text.
    pub fn to_text(&self) -> (r: String)
        ensures
            r@ == self@,
    {
        self.text.clone()
    }
}

/// A table reference, optionally qualified by its keyspace.
#[derive(Debug, Clone, PartialEq)]
pub struct FQName {
    pub keyspace: Option<Identifier>,
    pub name: Identifier,
}

impl View for FQName {
    type V = (Option<Seq<char>>, Seq<char>);

    open spec fn view(&self) -> (Option<Seq<char>>, Seq<char>) {
        (
            match self.keyspace {
                Some(k) => Some(k@),
                None => None,
            },
            self.name@,
        )
    }
}

/// The text of a table reference: `keyspace.name`, or `name` alone.
pub open spec fn fq_text(v: (Option<Seq<char>>, Seq<char>)) -> Seq<char> {
    match v.0 {
        Some(k) => k + seq!['.'] + v.1,
        None => v.1,
    }
}

impl FQName {
    /// A table name with no keyspace.
    pub fn simple(name: &str) -> (r: FQName)
        ensures
            r@ == (None::<Seq<char>>, name@),
    {
        FQName { keyspace: None, name: Identifier { text: String::from_str(name) } }
    }

    /// A table name qualified by its keyspace.
    pub fn qualified(keyspace: &str, name: &str) -> (r: FQName)
        ensures
            r@ == (Some(keyspace@), name@),
    {
        FQName {
            keyspace: Some(Identifier { text: String::from_str(keyspace) }),
            name: Identifier { text: String::from_str(name) },
        }
    }

    /// The table reference as text.
    pub fn to_text(&self) -> (r: String)
        ensures
            r@ == fq_text(self@),
    {
        match &self.keyspace {
            Some(k) => {
                let mut out = k.text.clone();
                proof { reveal_strlit("."); }
                out.append(".");
                out.append(self.name.text.as_str());
                assert(out@ =~= fq_text(self@));
                out
            },
            None => self.name.text.clone(),
        }
    }
}

/// One term of a WHERE clause, held as its text.
#[derive(Debug, Clone, PartialEq)]
pub struct RelationElement {
    pub text: String,
}

impl View for RelationElement {
    type V = Seq<char>;

    open spec fn view(&self) -> Seq<char> {
        self.text@
    }
}

impl RelationElement {
    /// A term with the given text.
    pub fn new(text: &str) -> (r: RelationElement)
        ensures
            r@ == text@,
    {
        RelationElement { text: String::from_str(text) }
    }

    /// The term as text.
    pub fn to_text(&self) -> (r: String)
        ensures
            r@ == self@,
    {
        self.text.clone()
    }
}

/// An ORDER BY clause, held as its text.
#[derive(Debug, Clone, PartialEq)]
pub struct OrderClause {
    pub text: String,
}

impl View for OrderClause {
    type V = Seq<char>;

    open spec fn view(&self) -> Seq<char> {
        self.text@
    }
}

impl OrderClause {
    /// An ordering clause with the given text.
    pub fn new(text: &str) -> (r: OrderClause)
        ensures
            r@ == text@,
    {
        OrderClause { text: String::from_str(text) }
    }

    /// The clause as text.
    pub fn to_text(&self) -> (r: String)
        ensures
            r@ == self@,
    {
        self.text.clone()
    }
}

} // verus!
