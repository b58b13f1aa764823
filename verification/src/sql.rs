//! The statements the commands send: their text, their parameters and the
//! columns read from each row that comes back.

use vstd::prelude::*;
use crate::column::{ColumnDescriptor, ColumnModel, columns_view, texts};

verus! {

/// The parts written one after another, with `sep` between neighbours.
pub open spec fn join(parts: Seq<Seq<char>>, sep: Seq<char>) -> Seq<char>
    decreases parts.len(),
{
    if parts.len() == 0 {
        Seq::empty()
    } else if parts.len() == 1 {
        parts[0]
    } else {
        join(parts.drop_last(), sep) + sep + parts.last()
    }
}

/// How one column is written in a table definition: name, a space, type.
pub open spec fn column_clause(column: ColumnModel) -> Seq<char> {
    column.name + " "@ + column.data_type
}

/// The column clauses of a table definition, in order.
pub open spec fn column_clauses(columns: Seq<ColumnModel>) -> Seq<Seq<char>> {
    columns.map_values(|c: ColumnModel| column_clause(c))
}

/// The text of the statement that creates `table` with `columns`:
/// `CREATE TABLE <table> (<name> <type>, <name> <type>, ...)`.
/// Names and types are written as given, without quoting.
pub open spec fn create_table_sql(table: Seq<char>, columns: Seq<ColumnModel>) -> Seq<char> {
    "CREATE TABLE "@ + table + " ("@ + join(column_clauses(columns), ", "@) + ")"@
}

/// The text of the query for the base tables of the public schema.
pub open spec fn list_tables_sql() -> Seq<char> {
    "SELECT table_name FROM information_schema.tables WHERE table_schema = 'public' AND table_type = 'BASE TABLE'"@
}

/// The text of the query for the columns of the table given as `$1`.
pub open spec fn list_columns_sql() -> Seq<char> {
    "SELECT column_name, data_type FROM information_schema.columns WHERE table_name = $1"@
}

/// A statement to run on a client.
#[derive(Debug, Clone, PartialEq, Eq)]
pub enum Statement {
    /// A statement without parameters whose rows, if any, are not read.
    Execute { sql: String },
    /// A query: its text, its text parameters in order (`$1` first), and the
    /// names of the columns to read from each row, in order.
    Query { sql: String, params: Vec<String>, columns: Vec<String> },
}

/// What a statement holds, as plain text.
pub enum StatementModel {
    Execute { sql: Seq<char> },
    Query { sql: Seq<char>, params: Seq<Seq<char>>, columns: Seq<Seq<char>> },
}

impl View for Statement {
    type V = StatementModel;

    open spec fn view(&self) -> StatementModel {
        match self {
            Statement::Execute { sql } => StatementModel::Execute { sql: sql@ },
            Statement::Query { sql, params, columns } => StatementModel::Query {
                sql: sql@,
                params: texts(params@),
                columns: texts(columns@),
            },
        }
    }
}

/// The statement that creates a table.
pub open spec fn create_table_model(table: Seq<char>, columns: Seq<ColumnModel>) -> StatementModel {
    StatementModel::Execute { sql: create_table_sql(table, columns) }
}

/// The query that lists the tables; it reads `table_name` from each row.
pub open spec fn list_tables_model() -> StatementModel {
    StatementModel::Query {
        sql: list_tables_sql(),
        params: Seq::empty(),
        columns: seq!["table_name"@],
    }
}

/// The query that lists the columns of `table`; it reads `column_name` and
/// `data_type` from each row.
pub open spec fn list_columns_model(table: Seq<char>) -> StatementModel {
    StatementModel::Query {
        sql: list_columns_sql(),
        params: seq![table],
        columns: seq!["column_name"@, "data_type"@],
    }
}

/// Writes the column clauses of a table definition, separated by `", "`.
fn column_list(columns: &Vec<ColumnDescriptor>) -> (list: String)
    ensures
        list@ == join(column_clauses(columns_view(columns@)), ", "@),
{
    let ghost clauses = column_clauses(columns_view(columns@));
    let mut list = String::new();
    let mut i: usize = 0;
    assert(clauses.take(0) =~= Seq::<Seq<char>>::empty());
    while i < columns.len()
        invariant
            i <= columns.len(),
            clauses == column_clauses(columns_view(columns@)),
            list@ == join(clauses.take(i as int), ", "@),
        decreases columns.len() - i,
    {
        let ghost before = list@;
        if i > 0 {
            list.append(", ");
        }
        list.append(columns[i].name.as_str());
        list.append(" ");
        list.append(columns[i].data_type.as_str());
        proof {
            let upto = clauses.take(i + 1);
            assert(upto.drop_last() =~= clauses.take(i as int));
            assert(upto.last() == column_clause(columns@[i as int]@));
            if i == 0 {
                assert(before =~= Seq::<char>::empty());
                assert(list@ =~= upto[0]);
            } else {
                assert(list@ =~= before + ", "@ + upto.last());
            }
        }
        i += 1;
    }
    assert(clauses.take(columns.len() as int) =~= clauses);
    list
}

/// Builds the statement that creates `table_name` with `columns`, in the
/// order given. Nothing is quoted or checked: the texts are interpolated as
/// they are.
pub fn create_table_statement(table_name: &str, columns: &Vec<ColumnDescriptor>) -> (statement:
    Statement)
    ensures
        statement@ == create_table_model(table_name@, columns_view(columns@)),
{
    let list = column_list(columns);
    let mut sql = String::from_str("CREATE TABLE ");
    sql.append(table_name);
    sql.append(" (");
    sql.append(list.as_str());
    sql.append(")");
    Statement::Execute { sql }
}

/// Builds the query for the base tables of the public schema.
pub fn list_tables_statement() -> (statement: Statement)
    ensures
        statement@ == list_tables_model(),
{
    let sql = String::from_str(
        "SELECT table_name FROM information_schema.tables WHERE table_schema = 'public' AND table_type = 'BASE TABLE'",
    );
    let params: Vec<String> = Vec::new();
    let mut columns: Vec<String> = Vec::new();
    columns.push(String::from_str("table_name"));
    assert(texts(params@) =~= Seq::<Seq<char>>::empty());
    assert(texts(columns@) =~= seq!["table_name"@]);
    Statement::Query { sql, params, columns }
}

/// Builds the query for the columns of `table_name`, which is passed as the
/// query's one parameter and never written into its text.
pub fn list_columns_statement(table_name: &str) -> (statement: Statement)
    ensures
        statement@ == list_columns_model(table_name@),
{
    let sql = String::from_str(
        "SELECT column_name, data_type FROM information_schema.columns WHERE table_name = $1",
    );
    let mut params: Vec<String> = Vec::new();
    params.push(String::from_str(table_name));
    let mut columns: Vec<String> = Vec::new();
    columns.push(String::from_str("column_name"));
    columns.push(String::from_str("data_type"));
    assert(texts(params@) =~= seq![table_name@]);
    assert(texts(columns@) =~= seq!["column_name"@, "data_type"@]);
    Statement::Query { sql, params, columns }
}

} // verus!
