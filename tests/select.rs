use cql_select::common::{FQName, Identifier, OrderClause, RelationElement, Span};
use cql_select::select::{Named, Select, SelectElement};
use cql_select::text::decimal_text;

fn statement(columns: Vec<SelectElement>) -> Select {
    Select {
        distinct: false,
        json: false,
        table_name: FQName::simple("t"),
        columns,
        where_clause: vec![],
        order: None,
        limit: None,
        filtering: false,
    }
}

fn aliased(name: &str, alias: &str) -> Named {
    Named::new(name, Span::from(name), alias, Span::from(alias))
}

fn plain(name: &str) -> Named {
    Named::simple(name, Span::from(name))
}

fn texts(ids: &[Identifier]) -> Vec<String> {
    ids.iter().map(|i| i.to_text()).collect()
}

#[test]
fn test_select_element_display() {
    assert_eq!("*", SelectElement::Star.to_text());
    assert_eq!(
        "col",
        SelectElement::Column(Named::simple("col", Span::from("col"))).to_text()
    );
    assert_eq!(
        "func",
        SelectElement::Function(Named::simple("func", Span::from("func"))).to_text()
    );
    assert_eq!(
        "col AS alias",
        SelectElement::Column(Named::new(
            "col",
            Span::from("func"),
            "alias",
            Span::from("alias")
        ))
        .to_text()
    );
    assert_eq!(
        "func AS alias",
        SelectElement::Function(Named::new(
            "func",
            Span::from("func"),
            "alias",
            Span::from("alias")
        ))
        .to_text()
    );
}

#[test]
fn named_renders_with_and_without_alias() {
    assert_eq!("name AS other", aliased("name", "other").to_text());
    assert_eq!("name", plain("name").to_text());
}

#[test]
fn alias_equal_to_name_is_kept() {
    assert_eq!("a AS a", aliased("a", "a").to_text());
    assert_eq!("a AS a", SelectElement::Column(aliased("a", "a")).to_text());
}

#[test]
fn alias_or_name_prefers_alias() {
    assert_eq!("b", aliased("a", "b").alias_or_name().as_str());
    assert_eq!("a", plain("a").alias_or_name().as_str());
}

#[test]
fn star_from_table() {
    let s = statement(vec![SelectElement::Star]);
    assert_eq!("SELECT * FROM t", s.to_text());
}

#[test]
fn distinct_with_limit() {
    let mut s = statement(vec![SelectElement::Column(plain("a"))]);
    s.distinct = true;
    s.limit = Some(5);
    assert_eq!("SELECT DISTINCT a FROM t LIMIT 5", s.to_text());
}

fn scenario_three() -> Select {
    let mut s = statement(vec![
        SelectElement::Column(aliased("a", "b")),
        SelectElement::Function(plain("count(*)")),
    ]);
    s.where_clause = vec![RelationElement::new("x = 1")];
    s.filtering = true;
    s
}

#[test]
fn alias_function_where_and_filtering() {
    assert_eq!(
        "SELECT a AS b, count(*) FROM t WHERE x = 1 ALLOW FILTERING",
        scenario_three().to_text()
    );
}

#[test]
fn select_names_skip_functions() {
    assert_eq!(vec!["a".to_string()], scenario_three().select_names());
}

#[test]
fn select_alias_prefers_alias() {
    assert_eq!(vec!["b".to_string()], texts(&scenario_three().select_alias()));
}

#[test]
fn accessors_keep_column_order() {
    let s = statement(vec![
        SelectElement::Column(plain("x")),
        SelectElement::Star,
        SelectElement::Function(aliased("f", "g")),
        SelectElement::Column(aliased("y", "z")),
        SelectElement::Column(plain("w")),
    ]);
    assert_eq!(vec!["x", "y", "w"], s.select_names());
    assert_eq!(vec!["x", "z", "w"], texts(&s.select_alias()));
}

#[test]
fn accessors_on_no_columns() {
    let s = statement(vec![SelectElement::Star, SelectElement::Function(plain("now()"))]);
    assert!(s.select_names().is_empty());
    assert!(s.select_alias().is_empty());
}

#[test]
fn every_clause() {
    let s = Select {
        distinct: true,
        json: true,
        table_name: FQName::qualified("ks", "t"),
        columns: vec![
            SelectElement::Column(plain("a")),
            SelectElement::Column(aliased("b", "c")),
        ],
        where_clause: vec![RelationElement::new("a = 1"), RelationElement::new("b > 2")],
        order: Some(OrderClause::new("a DESC")),
        limit: Some(-12),
        filtering: true,
    };
    assert_eq!(
        "SELECT DISTINCT JSON a, b AS c FROM ks.t WHERE a = 1 AND b > 2 ORDER BY a DESC LIMIT -12 ALLOW FILTERING",
        s.to_text()
    );
}

#[test]
fn json_and_order_only() {
    let mut s = statement(vec![SelectElement::Star]);
    s.json = true;
    s.order = Some(OrderClause::new("k ASC"));
    assert_eq!("SELECT JSON * FROM t ORDER BY k ASC", s.to_text());
}

#[test]
fn where_with_three_terms() {
    let mut s = statement(vec![SelectElement::Star]);
    s.where_clause = vec![
        RelationElement::new("a = 1"),
        RelationElement::new("b = 2"),
        RelationElement::new("c = 3"),
    ];
    assert_eq!("SELECT * FROM t WHERE a = 1 AND b = 2 AND c = 3", s.to_text());
}

#[test]
fn empty_projection() {
    assert_eq!("SELECT  FROM t", statement(vec![]).to_text());
}

#[test]
fn rendering_twice_is_identical() {
    let s = scenario_three();
    let copy = s.clone();
    assert_eq!(s.to_text(), s.to_text());
    assert_eq!(s.to_text(), copy.to_text());
}

#[test]
fn limit_extremes() {
    assert_eq!("0", decimal_text(0));
    assert_eq!("2147483647", decimal_text(i32::MAX));
    assert_eq!("-2147483648", decimal_text(i32::MIN));
    assert_eq!("100", decimal_text(100));
    let mut s = statement(vec![SelectElement::Star]);
    s.limit = Some(0);
    assert_eq!("SELECT * FROM t LIMIT 0", s.to_text());
}

#[test]
fn table_names() {
    assert_eq!("t", FQName::simple("t").to_text());
    assert_eq!("ks.t", FQName::qualified("ks", "t").to_text());
}
