//! The data commands, step by step.
//!
//! A command runs in three steps, and the caller waits between them:
//! [`begin`] says whether a client is to be acquired at all;
//! [`Pending::client_outcome`] takes what came of acquiring it and hands out
//! the statement to run, if the command's arguments make one;
//! [`Running::statement_outcome`] takes what came of running it and gives the
//! command's result.

use vstd::prelude::*;
use crate::column::{
    ColumnDescriptor,
    ColumnModel,
    columns_from_fields,
    columns_view,
    descriptors_of_fields,
    field_lists_view,
    missing_field_text,
    texts,
};
use crate::error::DbError;
use crate::pool::{PoolHandle, PoolHolder};
use crate::sql::{
    Statement,
    StatementModel,
    create_table_model,
    create_table_statement,
    list_columns_model,
    list_columns_statement,
    list_tables_model,
    list_tables_statement,
};

verus! {

/// A data command and its arguments.
#[derive(Debug, Clone, PartialEq, Eq)]
pub enum Command {
    /// Create a table with the given columns, in the given order. Each column
    /// is the list of its named fields, as it arrives: it is read when the
    /// statement is made.
    CreateTable { table_name: String, columns: Vec<Vec<(String, String)>> },
    /// List the base tables of the public schema.
    ListTables,
    /// List the columns of a table.
    ListTableColumns { table_name: String },
}

/// What a command holds, as plain text.
pub enum CommandModel {
    CreateTable { table_name: Seq<char>, columns: Seq<Seq<(Seq<char>, Seq<char>)>> },
    ListTables,
    ListTableColumns { table_name: Seq<char> },
}

impl View for Command {
    type V = CommandModel;

    open spec fn view(&self) -> CommandModel {
        match self {
            Command::CreateTable { table_name, columns } => CommandModel::CreateTable {
                table_name: table_name@,
                columns: field_lists_view(columns@),
            },
            Command::ListTables => CommandModel::ListTables,
            Command::ListTableColumns { table_name } => CommandModel::ListTableColumns {
                table_name: table_name@,
            },
        }
    }
}

/// What a command gives when it succeeds.
#[derive(Debug, Clone, PartialEq, Eq)]
pub enum Reply {
    /// The table was created.
    Created,
    /// The names of the tables, in the order the database gave them.
    Tables(Vec<String>),
    /// The columns of the table, in the order the database gave them.
    Columns(Vec<ColumnDescriptor>),
}

/// What a reply holds, as plain text.
pub enum ReplyModel {
    Created,
    Tables(Seq<Seq<char>>),
    Columns(Seq<ColumnModel>),
}

impl View for Reply {
    type V = ReplyModel;

    open spec fn view(&self) -> ReplyModel {
        match self {
            Reply::Created => ReplyModel::Created,
            Reply::Tables(names) => ReplyModel::Tables(texts(names@)),
            Reply::Columns(columns) => ReplyModel::Columns(columns_view(columns@)),
        }
    }
}

/// The texts of a sequence of rows, row by row and field by field.
pub open spec fn rows_view(rows: Seq<Vec<String>>) -> Seq<Seq<Seq<char>>> {
    rows.map_values(|row: Vec<String>| texts(row@))
}

/// The statement that a command runs. A table whose columns do not all have
/// a name and a type has none.
pub open spec fn statement_of(command: CommandModel) -> Option<StatementModel> {
    match command {
        CommandModel::CreateTable { table_name, columns } => match descriptors_of_fields(columns) {
            Some(described) => Some(create_table_model(table_name, described)),
            None => None,
        },
        CommandModel::ListTables => Some(list_tables_model()),
        CommandModel::ListTableColumns { table_name } => Some(list_columns_model(table_name)),
    }
}

/// How many fields a command reads from each row: as many as its statement
/// names columns.
pub open spec fn row_width(command: CommandModel) -> nat {
    match statement_of(command) {
        Some(StatementModel::Query { columns, .. }) => columns.len(),
        _ => 0,
    }
}

/// Whether `rows` can be the rows of the command: each has the fields that the
/// command reads. A command that reads none takes any rows.
pub open spec fn rows_fit(command: CommandModel, rows: Seq<Seq<Seq<char>>>) -> bool {
    row_width(command) > 0 ==> forall|i: int|
        0 <= i < rows.len() ==> (#[trigger] rows[i]).len() == row_width(command)
}

/// The reply that a command makes of the rows that came back: nothing is read
/// for a created table; a table's name is the one field of its row; a column's
/// name and type are the two fields of its row. Order is kept.
pub open spec fn reply_of(command: CommandModel, rows: Seq<Seq<Seq<char>>>) -> ReplyModel {
    match command {
        CommandModel::CreateTable { .. } => ReplyModel::Created,
        CommandModel::ListTables => ReplyModel::Tables(rows.map_values(|row: Seq<Seq<char>>| row[0])),
        CommandModel::ListTableColumns { .. } => ReplyModel::Columns(
            rows.map_values(|row: Seq<Seq<char>>| ColumnModel { name: row[0], data_type: row[1] }),
        ),
    }
}

/// The text reported when no client could be acquired for a command.
pub open spec fn client_failure_text(command: CommandModel, detail: Seq<char>) -> Seq<char> {
    match command {
        CommandModel::CreateTable { .. } => "failed to get client from pool: "@ + detail,
        CommandModel::ListTables => "Failed to get client from pool: "@ + detail,
        CommandModel::ListTableColumns { .. } => "Failed to get client from pool: "@ + detail,
    }
}

/// The text reported when a command's statement failed.
pub open spec fn statement_failure_text(command: CommandModel, detail: Seq<char>) -> Seq<char> {
    match command {
        CommandModel::CreateTable { .. } => "failed to execute create table: "@ + detail,
        CommandModel::ListTables => "Failed to query tables: "@ + detail,
        CommandModel::ListTableColumns { .. } => "Failed to query columns: "@ + detail,
    }
}

/// A command that waits for a client.
pub struct Pending {
    command: Command,
}

/// A command whose statement has been handed out and that waits for what
/// came of it.
pub struct Running {
    command: Command,
}

/// The first step of a command.
pub enum Begin<'a> {
    /// The command ends here with an error. Nothing is to be acquired or run.
    Rejected(DbError),
    /// A client is to be acquired from this pool.
    Acquire(&'a PoolHandle, Pending),
}

/// The second step of a command.
pub enum Next {
    /// The command ends here with an error. Nothing is to be run.
    Failed(DbError),
    /// This statement is to be run on the client.
    Run(Statement, Running),
}

impl Pending {
    /// The command that waits.
    pub closed spec fn command(&self) -> Command {
        self.command
    }

    /// Takes what came of acquiring a client: `Ok` if there is one, else the
    /// description of the failure. Without a client the command fails with a
    /// connection error. With one, the command's statement is handed out; a
    /// table with a column that lacks its name or its type has no statement
    /// and fails with a configuration error.
    pub fn client_outcome(self, outcome: Result<(), String>) -> (next: Next)
        ensures
            match outcome {
                Ok(()) => match statement_of(self.command()@) {
                    Some(model) => {
                        &&& next matches Next::Run(statement, running)
                        &&& statement@ == model
                        &&& running.command() == self.command()
                    },
                    None => {
                        &&& next matches Next::Failed(DbError::Configuration(text))
                        &&& text@ == missing_field_text()
                    },
                },
                Err(detail) => {
                    &&& next matches Next::Failed(DbError::Connection(text))
                    &&& text@ == client_failure_text(self.command()@, detail@)
                },
            },
    {
        match outcome {
            Ok(()) => {
                let statement = match &self.command {
                    Command::CreateTable { table_name, columns } => match columns_from_fields(
                        columns,
                    ) {
                        Ok(described) => create_table_statement(table_name.as_str(), &described),
                        Err(e) => {
                            return Next::Failed(e);
                        },
                    },
                    Command::ListTables => list_tables_statement(),
                    Command::ListTableColumns { table_name } => list_columns_statement(
                        table_name.as_str(),
                    ),
                };
                Next::Run(statement, Running { command: self.command })
            },
            Err(detail) => {
                let mut text = match &self.command {
                    Command::CreateTable { .. } => String::from_str(
                        "failed to get client from pool: ",
                    ),
                    Command::ListTables => String::from_str("Failed to get client from pool: "),
                    Command::ListTableColumns { .. } => String::from_str(
                        "Failed to get client from pool: ",
                    ),
                };
                text.append(detail.as_str());
                Next::Failed(DbError::Connection(text))
            },
        }
    }
}

/// Copies the one field of each row, in order.
fn table_names(rows: &Vec<Vec<String>>) -> (names: Vec<String>)
    requires
        forall|i: int| 0 <= i < rows@.len() ==> (#[trigger] rows@[i])@.len() >= 1,
    ensures
        texts(names@) == rows_view(rows@).map_values(|row: Seq<Seq<char>>| row[0]),
{
    let mut names: Vec<String> = Vec::new();
    let mut i: usize = 0;
    while i < rows.len()
        invariant
            i <= rows.len(),
            forall|k: int| 0 <= k < rows@.len() ==> (#[trigger] rows@[k])@.len() >= 1,
            names@.len() == i,
            forall|k: int| 0 <= k < i ==> (#[trigger] names@[k])@ == rows@[k]@[0]@,
        decreases rows.len() - i,
    {
        assert(rows@[i as int]@.len() >= 1);
        names.push(rows[i][0].clone());
        i += 1;
    }
    assert(texts(names@) =~= rows_view(rows@).map_values(|row: Seq<Seq<char>>| row[0]));
    names
}

/// Makes a descriptor of the two fields of each row, in order.
fn table_columns(rows: &Vec<Vec<String>>) -> (columns: Vec<ColumnDescriptor>)
    requires
        forall|i: int| 0 <= i < rows@.len() ==> (#[trigger] rows@[i])@.len() >= 2,
    ensures
        columns_view(columns@) == rows_view(rows@).map_values(
            |row: Seq<Seq<char>>| ColumnModel { name: row[0], data_type: row[1] },
        ),
{
    let mut columns: Vec<ColumnDescriptor> = Vec::new();
    let mut i: usize = 0;
    while i < rows.len()
        invariant
            i <= rows.len(),
            forall|k: int| 0 <= k < rows@.len() ==> (#[trigger] rows@[k])@.len() >= 2,
            columns@.len() == i,
            forall|k: int|
                0 <= k < i ==> (#[trigger] columns@[k])@ == (ColumnModel {
                    name: rows@[k]@[0]@,
                    data_type: rows@[k]@[1]@,
                }),
        decreases rows.len() - i,
    {
        assert(rows@[i as int]@.len() >= 2);
        columns.push(
            ColumnDescriptor { name: rows[i][0].clone(), data_type: rows[i][1].clone() },
        );
        i += 1;
    }
    assert(columns_view(columns@) =~= rows_view(rows@).map_values(
        |row: Seq<Seq<char>>| ColumnModel { name: row[0], data_type: row[1] },
    ));
    columns
}

impl Running {
    /// The command that runs.
    pub closed spec fn command(&self) -> Command {
        self.command
    }

    /// Whether `rows` can be handed to [`Running::statement_outcome`]: each
    /// row has the fields that the command reads.
    pub fn accepts(&self, rows: &Vec<Vec<String>>) -> (fits: bool)
        ensures
            fits == rows_fit(self.command()@, rows_view(rows@)),
    {
        let width: usize = match &self.command {
            Command::CreateTable { .. } => 0,
            Command::ListTables => 1,
            Command::ListTableColumns { .. } => 2,
        };
        assert(width == row_width(self.command()@));
        if width == 0 {
            return true;
        }
        let mut i: usize = 0;
        while i < rows.len()
            invariant
                i <= rows.len(),
                width > 0,
                width == row_width(self.command()@),
                forall|k: int|
                    0 <= k < i ==> (#[trigger] rows_view(rows@)[k]).len() == width,
            decreases rows.len() - i,
        {
            assert(rows_view(rows@)[i as int] == texts(rows@[i as int]@));
            if rows[i].len() != width {
                assert(rows_view(rows@)[i as int].len() != row_width(self.command()@));
                return false;
            }
            i += 1;
        }
        true
    }

    /// Takes what came of running the statement: the rows, each holding the
    /// columns that the statement names, in order, as text; or the
    /// description of the failure. Rows give the command's reply; a failure
    /// gives an execution error.
    pub fn statement_outcome(self, outcome: Result<Vec<Vec<String>>, String>) -> (result: Result<
        Reply,
        DbError,
    >)
        requires
            outcome matches Ok(rows) ==> rows_fit(self.command()@, rows_view(rows@)),
        ensures
            match outcome {
                Ok(rows) => result matches Ok(reply) && reply@ == reply_of(
                    self.command()@,
                    rows_view(rows@),
                ),
                Err(detail) => result matches Err(DbError::Execution(text)) && text@
                    == statement_failure_text(self.command()@, detail@),
            },
    {
        match outcome {
            Ok(rows) => {
                proof {
                    assert forall|i: int| 0 <= i < rows@.len() implies (#[trigger] rows@[i])@.len()
                        == row_width(self.command()@) || row_width(self.command()@) == 0 by {
                        assert(rows_view(rows@)[i] == texts(rows@[i]@));
                    }
                }
                match &self.command {
                    Command::CreateTable { .. } => Ok(Reply::Created),
                    Command::ListTables => Ok(Reply::Tables(table_names(&rows))),
                    Command::ListTableColumns { .. } => Ok(Reply::Columns(table_columns(&rows))),
                }
            },
            Err(detail) => {
                let mut text = match &self.command {
                    Command::CreateTable { .. } => String::from_str(
                        "failed to execute create table: ",
                    ),
                    Command::ListTables => String::from_str("Failed to query tables: "),
                    Command::ListTableColumns { .. } => String::from_str("Failed to query columns: "),
                };
                text.append(detail.as_str());
                Err(DbError::Execution(text))
            },
        }
    }
}

/// Begins a command. Without a pool the command is rejected as not
/// initialized, and nothing is acquired or run; with one, a client is to be
/// acquired from it.
pub fn begin<'a>(holder: &'a PoolHolder, command: Command) -> (step: Begin<'a>)
    ensures
        match holder@ {
            None => step == Begin::Rejected(DbError::NotInitialized),
            Some(pool) => step matches Begin::Acquire(from, pending) && *from == pool
                && pending.command() == command,
        },
{
    match holder.get() {
        None => Begin::Rejected(DbError::NotInitialized),
        Some(pool) => Begin::Acquire(pool, Pending { command }),
    }
}

} // verus!
