use sqlb::{
    insert, into_returnings, sql_comma_names, sql_comma_params, sql_returnings, Field, SqlBuilder,
    Val,
};

#[test]
fn new_builder_renders_bare_insert() {
    let b = insert("t");
    assert_eq!(b.sql(), "INSERT INTO \"t\" ");
    assert_eq!(b.vals(), Vec::<Val>::new());
}

#[test]
fn set_data_renders_columns_and_placeholders() {
    let b = insert("t").data(vec![
        Field("a".to_string(), Val::Int(1)),
        Field("b".to_string(), Val::Text("x".to_string())),
    ]);
    assert_eq!(b.sql(), "INSERT INTO \"t\" (\"a\", \"b\") VALUES ($1, $2) ");
    assert_eq!(b.vals(), vec![Val::Int(1), Val::Text("x".to_string())]);
}

#[test]
fn set_data_replaces_prior_data() {
    let b = insert("t")
        .data(vec![Field("a".to_string(), Val::Int(1))])
        .data(vec![Field("b".to_string(), Val::Bool(true))]);
    assert_eq!(b.sql(), "INSERT INTO \"t\" (\"b\") VALUES ($1) ");
    assert_eq!(b.vals(), vec![Val::Bool(true)]);
}

#[test]
fn returning_appends_without_dedup() {
    let b = insert("t").returning(&["id"]).returning(&["id", "name"]);
    assert_eq!(b.sql(), "INSERT INTO \"t\" RETURNING \"id\", \"id\", \"name\" ");
}

#[test]
fn clones_differ_on_absent_vs_present_data() {
    let base = insert("t");
    let with_data = base.clone().data(Vec::new());
    let without_data = base.clone();
    assert_ne!(with_data.sql(), without_data.sql());
}

#[test]
fn empty_field_list_renders_empty_clauses() {
    let b = insert("t").data(Vec::new());
    assert_eq!(b.sql(), "INSERT INTO \"t\" () VALUES () ");
    assert_eq!(b.vals(), Vec::<Val>::new());
}

#[test]
fn empty_returning_slice_creates_present_list() {
    let b = insert("t").returning(&[]);
    assert_eq!(b.sql(), "INSERT INTO \"t\" RETURNING  ");
}

#[test]
fn render_and_extract_idempotent_in_any_order() {
    let b = insert("t")
        .data(vec![Field("a".to_string(), Val::Null)])
        .returning(&["id"]);
    let s1 = b.sql();
    let v1 = b.vals();
    let v2 = b.vals();
    let s2 = b.sql();
    assert_eq!(s1, s2);
    assert_eq!(v1, v2);
}

#[test]
fn values_align_with_placeholders() {
    let fields = vec![
        Field("a".to_string(), Val::Int(7)),
        Field("b".to_string(), Val::Bool(false)),
        Field("c".to_string(), Val::Text("y".to_string())),
    ];
    let b = insert("t").data(fields);
    let sql = b.sql();
    let vals = b.vals();
    assert_eq!(sql.matches('$').count(), vals.len());
    assert_eq!(vals, vec![
        Val::Int(7),
        Val::Bool(false),
        Val::Text("y".to_string()),
    ]);
}

#[test]
fn placeholders_reach_two_digits() {
    let fields: Vec<Field> = (1..=12)
        .map(|i: i64| Field(format!("c{}", i), Val::Int(i)))
        .collect();
    let b = insert("t").data(fields);
    let sql = b.sql();
    assert!(sql.contains("$9, $10, $11, $12"));
    assert_eq!(b.vals().len(), 12);
}

#[test]
fn full_statement_with_all_clauses() {
    let b = insert("person")
        .data(vec![
            Field("name".to_string(), Val::Text("ada".to_string())),
            Field("age".to_string(), Val::Int(36)),
        ])
        .returning(&["id", "name"]);
    assert_eq!(
        b.sql(),
        "INSERT INTO \"person\" (\"name\", \"age\") VALUES ($1, $2) RETURNING \"id\", \"name\" "
    );
    assert_eq!(b.vals(), vec![Val::Text("ada".to_string()), Val::Int(36)]);
}

#[test]
fn comma_names_quotes_and_joins() {
    let fields = vec![
        Field("a".to_string(), Val::Null),
        Field("b".to_string(), Val::Null),
    ];
    assert_eq!(sql_comma_names(&fields), "\"a\", \"b\"");
    assert_eq!(sql_comma_names(&Vec::new()), "");
}

#[test]
fn comma_params_numbering_starts_at_one() {
    let fields = vec![
        Field("a".to_string(), Val::Null),
        Field("b".to_string(), Val::Null),
        Field("c".to_string(), Val::Null),
    ];
    assert_eq!(sql_comma_params(&fields), "$1, $2, $3");
    assert_eq!(sql_comma_params(&Vec::new()), "");
}

#[test]
fn returnings_quotes_and_joins() {
    let names = vec!["r1".to_string(), "r2".to_string()];
    assert_eq!(sql_returnings(&names), "\"r1\", \"r2\"");
}

#[test]
fn into_returnings_appends_and_creates() {
    let r = into_returnings(None, &["a", "b"]);
    assert_eq!(r, Some(vec!["a".to_string(), "b".to_string()]));
    let r = into_returnings(r, &["a"]);
    assert_eq!(
        r,
        Some(vec!["a".to_string(), "b".to_string(), "a".to_string()])
    );
    let r = into_returnings(None, &[]);
    assert_eq!(r, Some(Vec::new()));
}

#[test]
fn val_clones_compare_structurally() {
    let v = Val::Text("x".to_string());
    assert_eq!(v.clone(), v);
    let f = Field("a".to_string(), Val::Int(3));
    let g = f.clone();
    assert_eq!(g.0, "a");
    assert_eq!(g.1, Val::Int(3));
}
