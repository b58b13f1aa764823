use vizql_app::column::{columns_from_fields, ColumnDescriptor};
use vizql_app::error::DbError;
use vizql_app::sql::{
    create_table_statement, list_columns_statement, list_tables_statement, Statement,
};

fn sql_of(statement: Statement) -> String {
    match statement {
        Statement::Execute { sql } => sql,
        Statement::Query { sql, .. } => sql,
    }
}

fn pair(key: &str, value: &str) -> (String, String) {
    (key.to_string(), value.to_string())
}

#[test]
fn table_definition_lists_columns_in_order() {
    let columns = vec![
        ColumnDescriptor::new("id", "SERIAL PRIMARY KEY"),
        ColumnDescriptor::new("age", "INT"),
        ColumnDescriptor::new("name", "VARCHAR(40) NOT NULL"),
    ];
    assert_eq!(
        sql_of(create_table_statement("people", &columns)),
        "CREATE TABLE people (id SERIAL PRIMARY KEY, age INT, name VARCHAR(40) NOT NULL)"
    );
}

#[test]
fn table_definition_with_one_column_has_no_separator() {
    let columns = vec![ColumnDescriptor::new("id", "INT")];
    assert_eq!(sql_of(create_table_statement("t", &columns)), "CREATE TABLE t (id INT)");
}

#[test]
fn table_definition_without_columns_has_empty_brackets() {
    assert_eq!(sql_of(create_table_statement("t", &vec![])), "CREATE TABLE t ()");
}

#[test]
fn table_definition_quotes_nothing() {
    let columns = vec![ColumnDescriptor::new("a b", ""), ColumnDescriptor::new("", "x, y")];
    assert_eq!(
        sql_of(create_table_statement("t (x INT); --", &columns)),
        "CREATE TABLE t (x INT); -- (a b ,  x, y)"
    );
}

#[test]
fn table_definition_is_an_execute_statement() {
    assert!(matches!(create_table_statement("t", &vec![]), Statement::Execute { .. }));
}

#[test]
fn catalog_queries_read_their_columns_by_name() {
    match list_tables_statement() {
        Statement::Query { params, columns, .. } => {
            assert!(params.is_empty());
            assert_eq!(columns, vec!["table_name".to_string()]);
        }
        other => panic!("{:?}", other),
    }
    match list_columns_statement("orders") {
        Statement::Query { params, columns, .. } => {
            assert_eq!(params, vec!["orders".to_string()]);
            assert_eq!(columns, vec!["column_name".to_string(), "data_type".to_string()]);
        }
        other => panic!("{:?}", other),
    }
}

#[test]
fn descriptor_is_written_as_name_and_type() {
    let column = ColumnDescriptor::new("age", "INT");
    assert_eq!(column.fields(), vec![pair("name", "age"), pair("type", "INT")]);
}

#[test]
fn descriptor_is_read_from_fields_in_any_order() {
    let fields = vec![pair("comment", "years"), pair("type", "INT"), pair("name", "age")];
    assert_eq!(
        ColumnDescriptor::from_fields(&fields),
        Some(ColumnDescriptor { name: "age".to_string(), data_type: "INT".to_string() })
    );
}

#[test]
fn descriptor_takes_the_first_of_repeated_fields() {
    let fields = vec![pair("name", "a"), pair("name", "b"), pair("type", "T"), pair("type", "U")];
    assert_eq!(ColumnDescriptor::from_fields(&fields), Some(ColumnDescriptor::new("a", "T")));
}

#[test]
fn descriptor_needs_both_fields() {
    assert_eq!(ColumnDescriptor::from_fields(&vec![]), None);
    assert_eq!(ColumnDescriptor::from_fields(&vec![pair("name", "age")]), None);
    assert_eq!(ColumnDescriptor::from_fields(&vec![pair("type", "INT")]), None);
    assert_eq!(ColumnDescriptor::from_fields(&vec![pair("Name", "age"), pair("type", "INT")]), None);
}

#[test]
fn descriptor_round_trips_through_its_fields() {
    for column in [ColumnDescriptor::new("age", "INT"), ColumnDescriptor::new("", "")] {
        assert_eq!(ColumnDescriptor::from_fields(&column.fields()), Some(column));
    }
}

#[test]
fn columns_are_read_from_their_field_lists_in_order() {
    let lists = vec![
        vec![pair("type", "SERIAL PRIMARY KEY"), pair("name", "id")],
        vec![pair("name", "age"), pair("type", "INT")],
    ];
    assert_eq!(
        columns_from_fields(&lists),
        Ok(vec![
            ColumnDescriptor::new("id", "SERIAL PRIMARY KEY"),
            ColumnDescriptor::new("age", "INT"),
        ])
    );
    assert_eq!(columns_from_fields(&vec![]), Ok(vec![]));
}

#[test]
fn columns_with_a_list_lacking_a_field_are_refused() {
    let expected = Err(DbError::Configuration(
        "column descriptor needs a \"name\" and a \"type\"".to_string(),
    ));
    let last_lacks_type = vec![
        vec![pair("name", "id"), pair("type", "INT")],
        vec![pair("name", "age")],
    ];
    assert_eq!(columns_from_fields(&last_lacks_type), expected);
    let first_lacks_name = vec![vec![pair("type", "INT")], vec![pair("name", "a"), pair("type", "T")]];
    assert_eq!(columns_from_fields(&first_lacks_name), expected);
    assert_eq!(columns_from_fields(&vec![vec![]]), expected);
}

#[test]
fn written_columns_are_read_back() {
    let columns = vec![ColumnDescriptor::new("id", "INT"), ColumnDescriptor::new("", "")];
    let lists: Vec<Vec<(String, String)>> = columns.iter().map(|c| c.fields()).collect();
    assert_eq!(columns_from_fields(&lists), Ok(columns));
}
