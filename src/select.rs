//! A SELECT statement: its projection elements, the names they carry, the
//! accessors over the projection, and the statement's canonical text.

use crate::common::{fq_text, FQName, Identifier, OrderClause, RelationElement, Span};
use crate::text::{decimal_text, int_text, join_texts, join_with, texts_of};
use vstd::prelude::*;

verus! {

/// The value of a `Named`: a base name and an optional alias.
pub struct NamedView {
    pub name: Seq<char>,
    pub alias: Option<Seq<char>>,
}

/// The value of a `SelectElement`.
pub enum ElementView {
    Star,
    Column(NamedView),
    Function(NamedView),
}

/// The text of a name: `name`, or `name AS alias`.
pub open spec fn named_text(n: NamedView) -> Seq<char> {
    match n.alias {
        Some(a) => n.name + " AS "@ + a,
        None => n.name,
    }
}

/// The name an item is known by in the output: its alias when it has one,
/// else its base name.
pub open spec fn effective_name(n: NamedView) -> Seq<char> {
    match n.alias {
        Some(a) => a,
        None => n.name,
    }
}

/// The text of a projection element: `*` for the wildcard, else the text
/// of its name.
pub open spec fn element_text(e: ElementView) -> Seq<char> {
    match e {
        ElementView::Star => "*"@,
        ElementView::Column(n) => named_text(n),
        ElementView::Function(n) => named_text(n),
    }
}

/// A name with an optional alias.
#[derive(PartialEq, Debug, Clone)]
pub struct Named {
    pub name: Identifier,
    pub alias: Option<Identifier>,
}

impl View for Named {
    type V = NamedView;

    open spec fn view(&self) -> NamedView {
        NamedView {
            name: self.name@,
            alias: match self.alias {
                Some(a) => Some(a@),
                None => None,
            },
        }
    }
}

impl Named {
    /// A name with an alias, each read from its source text.
    pub fn new(name: &str, name_span: Span, alias: &str, alias_span: Span) -> (r: Named)
        ensures
            r@ == (NamedView { name: name@, alias: Some(alias@) }),
    {
        Named {
            name: Identifier::parse(name, name_span),
            alias: Some(Identifier::parse(alias, alias_span)),
        }
    }

    /// A name with no alias.
    pub fn simple(name: &str, span: Span) -> (r: Named)
        ensures
            r@ == (NamedView { name: name@, alias: None }),
    {
        Named { name: Identifier::parse(name, span), alias: None }
    }

    /// The alias when there is one, else the base name.
    pub fn alias_or_name(&self) -> (r: &Identifier)
        ensures
            r@ == effective_name(self@),
            self.alias is Some ==> *r == self.alias->Some_0,
            self.alias is None ==> *r == self.name,
    {
        match &self.alias {
            None => &self.name,
            Some(alias) => alias,
        }
    }

    /// The canonical text: `name`, or `name AS alias`.
    pub fn to_text(&self) -> (r: String)
        ensures
            r@ == named_text(self@),
            self.alias is None ==> r@ == self.name@,
            self.alias is Some ==> r@ == self.name@ + " AS "@ + self.alias->Some_0@,
    {
        match &self.alias {
            None => self.name.to_text(),
            Some(a) => {
                let mut out = self.name.to_text();
                out.append(" AS ");
                out.append(a.as_str());
                assert(out@ =~= named_text(self@));
                out
            },
        }
    }
}

/// One item of a projection.
#[derive(PartialEq, Debug, Clone)]
pub enum SelectElement {
    /// All of the columns.
    Star,
    /// A column, possibly aliased.
    Column(Named),
    /// A function call, possibly aliased.
    Function(Named),
}

impl View for SelectElement {
    type V = ElementView;

    open spec fn view(&self) -> ElementView {
        match self {
            SelectElement::Star => ElementView::Star,
            SelectElement::Column(n) => ElementView::Column(n@),
            SelectElement::Function(n) => ElementView::Function(n@),
        }
    }
}

impl SelectElement {
    /// The canonical text: `*`, or the text of the element's name.
    pub fn to_text(&self) -> (r: String)
        ensures
            r@ == element_text(self@),
    {
        match self {
            SelectElement::Star => String::from_str("*"),
            SelectElement::Column(named) => named.to_text(),
            SelectElement::Function(named) => named.to_text(),
        }
    }
}

/// The value of a `Select`.
pub struct SelectView {
    pub distinct: bool,
    pub json: bool,
    pub table_name: (Option<Seq<char>>, Seq<char>),
    pub columns: Seq<ElementView>,
    pub where_clause: Seq<Seq<char>>,
    pub order: Option<Seq<char>>,
    pub limit: Option<int>,
    pub filtering: bool,
}

/// The names of the `Column` elements, in projection order; wildcards and
/// function calls are left out.
pub open spec fn column_items(cols: Seq<ElementView>) -> Seq<NamedView>
    decreases cols.len(),
{
    if cols.len() == 0 {
        Seq::empty()
    } else {
        let rest = column_items(cols.drop_last());
        match cols.last() {
            ElementView::Column(n) => rest.push(n),
            _ => rest,
        }
    }
}

proof fn lemma_column_items_step(cols: Seq<ElementView>, i: int)
    requires
        0 <= i < cols.len(),
    ensures
        column_items(cols.take(i + 1)) == match cols[i] {
            ElementView::Column(n) => column_items(cols.take(i)).push(n),
            _ => column_items(cols.take(i)),
        },
{
    assert(cols.take(i + 1).drop_last() =~= cols.take(i));
    assert(cols.take(i + 1).last() == cols[i]);
}

/// How many elements are `Column` elements.
pub open spec fn column_count(cols: Seq<ElementView>) -> nat
    decreases cols.len(),
{
    if cols.len() == 0 {
        0
    } else {
        column_count(cols.drop_last()) + if cols.last() is Column {
            1nat
        } else {
            0nat
        }
    }
}

/// The positions of the `Column` elements, in increasing order.
pub open spec fn column_positions(cols: Seq<ElementView>) -> Seq<int>
    decreases cols.len(),
{
    if cols.len() == 0 {
        Seq::empty()
    } else {
        let rest = column_positions(cols.drop_last());
        if cols.last() is Column {
            rest.push(cols.len() - 1)
        } else {
            rest
        }
    }
}

/// The base names of the `Column` elements, in projection order.
pub open spec fn column_names(cols: Seq<ElementView>) -> Seq<Seq<char>> {
    column_items(cols).map_values(|n: NamedView| n.name)
}

/// The effective names of the `Column` elements, in projection order.
pub open spec fn column_aliases(cols: Seq<ElementView>) -> Seq<Seq<char>> {
    column_items(cols).map_values(|n: NamedView| effective_name(n))
}

/// `text` when `on` holds, else nothing.
pub open spec fn text_if(on: bool, text: Seq<char>) -> Seq<char> {
    if on {
        text
    } else {
        Seq::empty()
    }
}

/// The WHERE segment: ` WHERE ` and the terms joined by ` AND `, or nothing
/// when there are no terms.
pub open spec fn where_text(terms: Seq<Seq<char>>) -> Seq<char> {
    if terms.len() == 0 {
        Seq::empty()
    } else {
        " WHERE "@ + join_with(terms, " AND "@)
    }
}

/// The ORDER BY segment, or nothing.
pub open spec fn order_text(order: Option<Seq<char>>) -> Seq<char> {
    match order {
        Some(o) => " ORDER BY "@ + o,
        None => Seq::empty(),
    }
}

/// The LIMIT segment, or nothing.
pub open spec fn limit_text(limit: Option<int>) -> Seq<char> {
    match limit {
        Some(n) => " LIMIT "@ + int_text(n),
        None => Seq::empty(),
    }
}

/// The canonical text of a SELECT statement.
pub open spec fn select_text(s: SelectView) -> Seq<char> {
    "SELECT "@ + text_if(s.distinct, "DISTINCT "@) + text_if(s.json, "JSON "@) + join_with(
        s.columns.map_values(|e: ElementView| element_text(e)),
        ", "@,
    ) + " FROM "@ + fq_text(s.table_name) + where_text(s.where_clause) + order_text(s.order)
        + limit_text(s.limit) + text_if(s.filtering, " ALLOW FILTERING"@)
}

/// A SELECT statement.
#[derive(PartialEq, Debug, Clone)]
pub struct Select {
    /// DISTINCT results.
    pub distinct: bool,
    /// JSON results.
    pub json: bool,
    /// The table read from.
    pub table_name: FQName,
    /// The projection, in order.
    pub columns: Vec<SelectElement>,
    /// The WHERE terms, joined by AND.
    pub where_clause: Vec<RelationElement>,
    /// The optional ordering.
    pub order: Option<OrderClause>,
    /// The optional row cap.
    pub limit: Option<i32>,
    /// ALLOW FILTERING.
    pub filtering: bool,
}

impl View for Select {
    type V = SelectView;

    open spec fn view(&self) -> SelectView {
        SelectView {
            distinct: self.distinct,
            json: self.json,
            table_name: self.table_name@,
            columns: self.columns@.map_values(|e: SelectElement| e@),
            where_clause: self.where_clause@.map_values(|w: RelationElement| w@),
            order: match self.order {
                Some(o) => Some(o@),
                None => None,
            },
            limit: match self.limit {
                Some(n) => Some(n as int),
                None => None,
            },
            filtering: self.filtering,
        }
    }
}

impl Select {
    /// The base names of the `Column` elements, in projection order.
    /// Wildcards and function calls are left out.
    pub fn select_names(&self) -> (r: Vec<String>)
        ensures
            texts_of(r@) == column_names(self@.columns),
    {
        let ghost cols = self@.columns;
        let mut out: Vec<String> = Vec::new();
        let mut i: usize = 0;
        while i < self.columns.len()
            invariant
                cols == self@.columns,
                i <= self.columns.len(),
                texts_of(out@) =~= column_names(cols.take(i as int)),
            decreases self.columns.len() - i,
        {
            proof {
                lemma_column_items_step(cols, i as int);
                assert(cols[i as int] == self.columns@[i as int]@);
            }
            let ghost prev = out@;
            match &self.columns[i] {
                SelectElement::Column(named) => {
                    out.push(named.name.to_text());
                    assert(cols[i as int] == ElementView::Column(named@));
                    assert(texts_of(out@) =~= texts_of(prev).push(named@.name));
                },
                _ => {},
            }
            i = i + 1;
            assert(texts_of(out@) =~= column_names(cols.take(i as int)));
        }
        assert(cols.take(i as int) =~= cols);
        out
    }

    /// The effective names of the `Column` elements, in projection order:
    /// the alias where there is one, else the base name. Wildcards and
    /// function calls are left out.
    pub fn select_alias(&self) -> (r: Vec<Identifier>)
        ensures
            r@.map_values(|n: Identifier| n@) == column_aliases(self@.columns),
    {
        let ghost cols = self@.columns;
        let mut out: Vec<Identifier> = Vec::new();
        let mut i: usize = 0;
        while i < self.columns.len()
            invariant
                cols == self@.columns,
                i <= self.columns.len(),
                out@.map_values(|n: Identifier| n@) =~= column_aliases(cols.take(i as int)),
            decreases self.columns.len() - i,
        {
            proof {
                lemma_column_items_step(cols, i as int);
                assert(cols[i as int] == self.columns@[i as int]@);
            }
            let ghost prev = out@;
            match &self.columns[i] {
                SelectElement::Column(named) => {
                    out.push(named.alias_or_name().duplicate());
                    assert(cols[i as int] == ElementView::Column(named@));
                    assert(out@.map_values(|n: Identifier| n@) =~= prev.map_values(
                        |n: Identifier| n@,
                    ).push(effective_name(named@)));
                },
                _ => {},
            }
            i = i + 1;
            assert(out@.map_values(|n: Identifier| n@) =~= column_aliases(cols.take(i as int)));
        }
        assert(cols.take(i as int) =~= cols);
        out
    }

    /// The canonical text of the statement: `SELECT`, then `DISTINCT `,
    /// `JSON ` when set, the projection joined by `, `, ` FROM ` and the
    /// table, and the WHERE, ORDER BY, LIMIT and ALLOW FILTERING segments
    /// where present.
    pub fn to_text(&self) -> (r: String)
        ensures
            r@ == select_text(self@),
    {
        let mut out = String::from_str("SELECT ");
        if self.distinct {
            out.append("DISTINCT ");
        }
        if self.json {
            out.append("JSON ");
        }
        let parts = element_texts(&self.columns);
        let projection = join_texts(&parts, ", ");
        out.append(projection.as_str());
        out.append(" FROM ");
        let table = self.table_name.to_text();
        out.append(table.as_str());
        let filter = where_segment(&self.where_clause);
        out.append(filter.as_str());
        let order = order_segment(&self.order);
        out.append(order.as_str());
        let limit = limit_segment(self.limit);
        out.append(limit.as_str());
        if self.filtering {
            out.append(" ALLOW FILTERING");
        }
        assert(out@ =~= select_text(self@));
        out
    }
}

fn element_texts(cols: &Vec<SelectElement>) -> (r: Vec<String>)
    ensures
        texts_of(r@) == cols@.map_values(|e: SelectElement| e@).map_values(
            |e: ElementView| element_text(e),
        ),
{
    let ghost want = cols@.map_values(|e: SelectElement| e@).map_values(
        |e: ElementView| element_text(e),
    );
    let mut parts: Vec<String> = Vec::new();
    let mut i: usize = 0;
    while i < cols.len()
        invariant
            i <= cols.len(),
            want == cols@.map_values(|e: SelectElement| e@).map_values(
                |e: ElementView| element_text(e),
            ),
            texts_of(parts@) =~= want.take(i as int),
        decreases cols.len() - i,
    {
        let ghost prev = parts@;
        let t = cols[i].to_text();
        parts.push(t);
        assert(texts_of(parts@) =~= texts_of(prev).push(t@));
        assert(want.take(i + 1) =~= want.take(i as int).push(t@));
        i = i + 1;
    }
    assert(want.take(i as int) =~= want);
    parts
}

fn where_segment(terms: &Vec<RelationElement>) -> (r: String)
    ensures
        r@ == where_text(terms@.map_values(|w: RelationElement| w@)),
{
    let ghost want = terms@.map_values(|w: RelationElement| w@);
    if terms.len() == 0 {
        return String::new();
    }
    let mut texts: Vec<String> = Vec::new();
    let mut j: usize = 0;
    while j < terms.len()
        invariant
            j <= terms.len(),
            want == terms@.map_values(|w: RelationElement| w@),
            texts_of(texts@) =~= want.take(j as int),
        decreases terms.len() - j,
    {
        let ghost prev = texts@;
        let t = terms[j].to_text();
        texts.push(t);
        assert(texts_of(texts@) =~= texts_of(prev).push(t@));
        assert(want.take(j + 1) =~= want.take(j as int).push(t@));
        j = j + 1;
    }
    assert(want.take(j as int) =~= want);
    let mut out = String::from_str(" WHERE ");
    let joined = join_texts(&texts, " AND ");
    out.append(joined.as_str());
    out
}

fn order_segment(order: &Option<OrderClause>) -> (r: String)
    ensures
        r@ == order_text(
            match order {
                Some(o) => Some(o@),
                None => None,
            },
        ),
{
    match order {
        Some(o) => {
            let mut out = String::from_str(" ORDER BY ");
            out.append(o.text.as_str());
            out
        },
        None => String::new(),
    }
}

fn limit_segment(limit: Option<i32>) -> (r: String)
    ensures
        r@ == limit_text(
            match limit {
                Some(n) => Some(n as int),
                None => None,
            },
        ),
{
    match limit {
        Some(n) => {
            let mut out = String::from_str(" LIMIT ");
            let digits = decimal_text(n);
            out.append(digits.as_str());
            out
        },
        None => String::new(),
    }
}

/// Both accessors give one entry per `Column` element and none for a
/// wildcard or a function call: the k-th entry comes from the k-th `Column`
/// element in projection order, as its base name for `select_names` and as
/// its effective name for `select_alias`.
pub proof fn lemma_accessors_follow_columns(cols: Seq<ElementView>)
    ensures
        column_names(cols).len() == column_count(cols),
        column_aliases(cols).len() == column_count(cols),
        column_positions(cols).len() == column_count(cols),
        forall|k: int, l: int|
            0 <= k < l < column_count(cols) ==> column_positions(cols)[k] < column_positions(
                cols,
            )[l],
        forall|k: int|
            0 <= k < column_count(cols) ==> {
                let p = #[trigger] column_positions(cols)[k];
                &&& 0 <= p < cols.len()
                &&& cols[p] == ElementView::Column(column_items(cols)[k])
                &&& column_names(cols)[k] == column_items(cols)[k].name
                &&& column_aliases(cols)[k] == effective_name(column_items(cols)[k])
            },
        forall|j: int|
            0 <= j < cols.len() && (#[trigger] cols[j]) is Column ==> column_positions(
                cols,
            ).contains(j),
    decreases cols.len(),
{
    if cols.len() > 0 {
        let init = cols.drop_last();
        lemma_accessors_follow_columns(init);
        assert(column_items(cols).len() == column_count(cols));
        assert forall|k: int|
            0 <= k < column_count(cols) implies {
                let p = #[trigger] column_positions(cols)[k];
                &&& 0 <= p < cols.len()
                &&& cols[p] == ElementView::Column(column_items(cols)[k])
            } by {
            if k < column_count(init) {
                let p = column_positions(init)[k];
                assert(column_positions(cols)[k] == p);
                assert(cols[p] == init[p]);
            }
        }
        assert forall|j: int|
            0 <= j < cols.len() && (#[trigger] cols[j]) is Column implies column_positions(
                cols,
            ).contains(j) by {
            if j < cols.len() - 1 {
                assert(init[j] == cols[j]);
                let k = choose|k: int| 0 <= k < column_positions(init).len() && column_positions(init)[k] == j;
                assert(column_positions(cols)[k] == j);
            } else {
                assert(column_positions(cols).last() == j);
            }
        }
    }
}

/// Rendering is deterministic: two statements with the same value, such as
/// one statement rendered twice, or a statement and its copy, have the same
/// canonical text, and so `to_text` gives the same text each time.
pub proof fn lemma_text_is_deterministic(s: &Select, t: &Select)
    requires
        s@ == t@,
    ensures
        select_text(s@) == select_text(t@),
{
}

} // verus!
