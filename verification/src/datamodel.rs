//! Plain data-transfer structures describing a serialized datamodel for
//! external clients. They carry no behavior; the rim that talks to those
//! clients mirrors them into its own serializable form.

use vstd::prelude::*;

verus! {

/// Declares `serde_json::Value` so it can ride through these structures as
/// an opaque default-value or argument payload; nothing here reads into it.
#[verifier::external_type_specification]
#[verifier::external_body]
pub struct ExJsonValue(serde_json::Value);

/// A whole serialized datamodel: its enumerations, models, composite types,
/// and indexes.
pub struct Datamodel {
    pub enums: Vec<Enum>,
    pub models: Vec<Model>,
    pub types: Vec<Model>,
    pub indexes: Vec<Index>,
}

/// One field of a model or composite type.
pub struct Field {
    pub name: String,
    pub db_name: Option<String>,
    pub kind: &'static str,
    pub is_list: bool,
    pub is_required: bool,
    pub is_unique: bool,
    pub is_id: bool,
    pub is_read_only: bool,
    pub has_default_value: bool,
    pub field_type: String,
    pub default: Option<serde_json::Value>,
    pub relation_name: Option<String>,
    pub relation_from_fields: Option<Vec<String>>,
    pub relation_to_fields: Option<Vec<String>>,
    pub relation_on_delete: Option<String>,
    pub is_generated: Option<bool>,
    pub is_updated_at: Option<bool>,
    pub documentation: Option<String>,
}

/// A named function application carried as opaque argument payloads.
pub struct Function {
    pub name: String,
    pub args: Vec<serde_json::Value>,
}

/// One model: its fields, keys, and unique constraints.
pub struct Model {
    pub name: String,
    pub db_name: Option<String>,
    pub fields: Vec<Field>,
    pub primary_key: Option<PrimaryKey>,
    pub unique_fields: Vec<Vec<String>>,
    pub unique_indexes: Vec<UniqueIndex>,
    pub is_generated: Option<bool>,
    pub documentation: Option<String>,
}

/// A uniqueness constraint over a group of fields.
pub struct UniqueIndex {
    pub name: Option<String>,
    pub fields: Vec<String>,
}

/// The primary key of a model.
pub struct PrimaryKey {
    pub name: Option<String>,
    pub fields: Vec<String>,
}

/// One enumeration of the datamodel.
pub struct Enum {
    pub name: String,
    pub values: Vec<EnumValue>,
    pub db_name: Option<String>,
    pub documentation: Option<String>,
}

/// One value of an enumeration.
pub struct EnumValue {
    pub name: String,
    pub db_name: Option<String>,
    pub documentation: Option<String>,
}

/// One index of the datamodel.
pub struct Index {
    pub model: String,
    pub index_type: IndexType,
    pub is_defined_on_field: bool,
    pub name: Option<String>,
    pub mapped_name: Option<String>,
    pub algorithm: Option<String>,
    pub clustered: Option<bool>,
    pub fields: Vec<IndexField>,
}

/// One indexed field: the path to it (field name paired with the name of
/// the type it is defined on), and its ordering options.
pub struct IndexField {
    pub path: Vec<(String, String)>,
    pub sort_order: Option<SortOrder>,
    pub length: Option<u32>,
    pub operator_class: Option<String>,
}

/// What kind of index an index is.
#[derive(Clone, Copy, PartialEq, Eq, Structural, Debug)]
pub enum IndexType {
    Normal,
    Unique,
    Fulltext,
}

/// The direction an indexed field is ordered in.
#[derive(Clone, Copy, PartialEq, Eq, Structural, Debug)]
pub enum SortOrder {
    Asc,
    Desc,
}

} // verus!
