//! Column descriptors: a column's name and its type, as a value of their own
//! and as the list of named fields in which they cross the command boundary.

use vstd::prelude::*;
use crate::error::DbError;

verus! {

/// One column of a table: its name and the name of its data type.
#[derive(Debug, Clone, PartialEq, Eq)]
pub struct ColumnDescriptor {
    pub name: String,
    pub data_type: String,
}

/// What a column descriptor holds, as plain text.
pub struct ColumnModel {
    pub name: Seq<char>,
    pub data_type: Seq<char>,
}

impl View for ColumnDescriptor {
    type V = ColumnModel;

    open spec fn view(&self) -> ColumnModel {
        ColumnModel { name: self.name@, data_type: self.data_type@ }
    }
}

/// The models of a sequence of descriptors, in the same order.
pub open spec fn columns_view(columns: Seq<ColumnDescriptor>) -> Seq<ColumnModel> {
    columns.map_values(|c: ColumnDescriptor| c@)
}

/// The texts of a sequence of strings, in the same order.
pub open spec fn texts(strings: Seq<String>) -> Seq<Seq<char>> {
    strings.map_values(|s: String| s@)
}

/// The key/value texts of a sequence of fields, in the same order.
pub open spec fn fields_view(fields: Seq<(String, String)>) -> Seq<(Seq<char>, Seq<char>)> {
    fields.map_values(|f: (String, String)| (f.0@, f.1@))
}

/// The value of the first field whose key is `key`, if there is one.
pub open spec fn field_value(fields: Seq<(Seq<char>, Seq<char>)>, key: Seq<char>) -> Option<
    Seq<char>,
>
    decreases fields.len(),
{
    if fields.len() == 0 {
        None
    } else if fields[0].0 == key {
        Some(fields[0].1)
    } else {
        field_value(fields.drop_first(), key)
    }
}

/// The descriptor that a list of fields stands for: the value under `"name"`
/// and the value under `"type"`, where both are present.
pub open spec fn descriptor_of_fields(fields: Seq<(Seq<char>, Seq<char>)>) -> Option<ColumnModel> {
    match (field_value(fields, "name"@), field_value(fields, "type"@)) {
        (Some(name), Some(data_type)) => Some(ColumnModel { name, data_type }),
        _ => None,
    }
}

/// The fields that a descriptor is written as: `"name"` first, then `"type"`.
pub open spec fn fields_of_descriptor(column: ColumnModel) -> Seq<(Seq<char>, Seq<char>)> {
    seq![("name"@, column.name), ("type"@, column.data_type)]
}

/// The field lists of a sequence of columns, in the same order.
pub open spec fn field_lists_view(columns: Seq<Vec<(String, String)>>) -> Seq<
    Seq<(Seq<char>, Seq<char>)>,
> {
    columns.map_values(|fields: Vec<(String, String)>| fields_view(fields@))
}

/// The descriptors that a sequence of field lists stands for, in the same
/// order, where every list has both a `"name"` and a `"type"`.
pub open spec fn descriptors_of_fields(columns: Seq<Seq<(Seq<char>, Seq<char>)>>) -> Option<
    Seq<ColumnModel>,
> {
    if forall|i: int| 0 <= i < columns.len() ==> descriptor_of_fields(#[trigger] columns[i]) is Some {
        Some(columns.map_values(|fields: Seq<(Seq<char>, Seq<char>)>| descriptor_of_fields(fields)->0))
    } else {
        None
    }
}

/// The text reported for a column that lacks its name or its type.
pub open spec fn missing_field_text() -> Seq<char> {
    "column descriptor needs a \"name\" and a \"type\""@
}

/// Looks a key up in a list of fields and copies the first value found.
fn find_field(fields: &Vec<(String, String)>, key: &str) -> (found: Option<String>)
    ensures
        match found {
            Some(value) => field_value(fields_view(fields@), key@) == Some(value@),
            None => field_value(fields_view(fields@), key@) is None,
        },
{
    let wanted = String::from_str(key);
    let mut i: usize = 0;
    assert(fields_view(fields@).skip(0) =~= fields_view(fields@));
    while i < fields.len()
        invariant
            i <= fields.len(),
            wanted@ == key@,
            field_value(fields_view(fields@), key@) == field_value(
                fields_view(fields@).skip(i as int),
                key@,
            ),
        decreases fields.len() - i,
    {
        let ghost rest = fields_view(fields@).skip(i as int);
        assert(rest[0] == (fields@[i as int].0@, fields@[i as int].1@));
        assert(rest.drop_first() == fields_view(fields@).skip(i + 1));
        if fields[i].0 == wanted {
            return Some(fields[i].1.clone());
        }
        i += 1;
    }
    None
}

impl ColumnDescriptor {
    /// Builds a descriptor from copies of the two texts.
    pub fn new(name: &str, data_type: &str) -> (column: ColumnDescriptor)
        ensures
            column@.name == name@,
            column@.data_type == data_type@,
    {
        ColumnDescriptor { name: String::from_str(name), data_type: String::from_str(data_type) }
    }

    /// Reads a descriptor out of a list of named fields. The order of the
    /// fields does not matter and other keys are ignored; the result is `None`
    /// exactly when `"name"` or `"type"` is missing.
    pub fn from_fields(fields: &Vec<(String, String)>) -> (column: Option<ColumnDescriptor>)
        ensures
            match column {
                Some(c) => descriptor_of_fields(fields_view(fields@)) == Some(c@),
                None => descriptor_of_fields(fields_view(fields@)) is None,
            },
    {
        match find_field(fields, "name") {
            Some(name) => match find_field(fields, "type") {
                Some(data_type) => Some(ColumnDescriptor { name, data_type }),
                None => None,
            },
            None => None,
        }
    }

    /// Writes the descriptor as its two named fields.
    pub fn fields(&self) -> (fields: Vec<(String, String)>)
        ensures
            fields_view(fields@) == fields_of_descriptor(self@),
    {
        let mut fields: Vec<(String, String)> = Vec::new();
        fields.push((String::from_str("name"), self.name.clone()));
        fields.push((String::from_str("type"), self.data_type.clone()));
        assert(fields_view(fields@) =~= fields_of_descriptor(self@));
        fields
    }
}

/// Reads the descriptors out of the field lists of a table's columns, in
/// order. Fails with a configuration error exactly when some list lacks
/// `"name"` or `"type"`.
pub fn columns_from_fields(columns: &Vec<Vec<(String, String)>>) -> (read: Result<
    Vec<ColumnDescriptor>,
    DbError,
>)
    ensures
        match read {
            Ok(found) => descriptors_of_fields(field_lists_view(columns@)) == Some(
                columns_view(found@),
            ),
            Err(e) => {
                &&& descriptors_of_fields(field_lists_view(columns@)) is None
                &&& e matches DbError::Configuration(text)
                &&& text@ == missing_field_text()
            },
        },
{
    let ghost lists = field_lists_view(columns@);
    let mut found: Vec<ColumnDescriptor> = Vec::new();
    let mut i: usize = 0;
    while i < columns.len()
        invariant
            i <= columns.len(),
            lists == field_lists_view(columns@),
            found@.len() == i,
            forall|k: int| 0 <= k < i ==> descriptor_of_fields(#[trigger] lists[k]) == Some(found@[k]@),
        decreases columns.len() - i,
    {
        assert(lists[i as int] == fields_view(columns@[i as int]@));
        match ColumnDescriptor::from_fields(&columns[i]) {
            Some(column) => {
                found.push(column);
            },
            None => {
                assert(descriptor_of_fields(lists[i as int]) is None);
                return Err(
                    DbError::Configuration(
                        String::from_str("column descriptor needs a \"name\" and a \"type\""),
                    ),
                );
            },
        }
        i += 1;
    }
    assert(columns_view(found@) =~= lists.map_values(
        |fields: Seq<(Seq<char>, Seq<char>)>| descriptor_of_fields(fields)->0,
    ));
    Ok(found)
}

/// A descriptor written as fields reads back as itself.
pub proof fn lemma_fields_round_trip(column: ColumnModel)
    ensures
        descriptor_of_fields(fields_of_descriptor(column)) == Some(column),
{
    let fields = fields_of_descriptor(column);
    reveal_strlit("name");
    reveal_strlit("type");
    assert("name"@ != "type"@) by {
        assert("name"@[0] == 'n');
        assert("type"@[0] == 't');
    }
    assert(fields[0].0 == "name"@);
    assert(field_value(fields, "name"@) == Some(column.name));
    assert(fields.drop_first()[0] == fields[1]);
    assert(field_value(fields.drop_first(), "type"@) == Some(column.data_type));
    assert(field_value(fields, "type"@) == Some(column.data_type));
}

/// Descriptors written as field lists read back as themselves, in order: no
/// list written by [`ColumnDescriptor::fields`] lacks a field.
pub proof fn lemma_written_columns_read_back(columns: Seq<ColumnModel>)
    ensures
        descriptors_of_fields(columns.map_values(|c: ColumnModel| fields_of_descriptor(c))) == Some(
            columns,
        ),
{
    let lists = columns.map_values(|c: ColumnModel| fields_of_descriptor(c));
    assert forall|i: int| 0 <= i < lists.len() implies descriptor_of_fields(#[trigger] lists[i])
        == Some(columns[i]) by {
        lemma_fields_round_trip(columns[i]);
    }
    assert(lists.map_values(
        |fields: Seq<(Seq<char>, Seq<char>)>| descriptor_of_fields(fields)->0,
    ) =~= columns);
}

} // verus!
