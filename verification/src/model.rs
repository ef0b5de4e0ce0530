//! The model of a record type definition that the generators consume:
//! the type's name, its generic parameters and where-clause, and its
//! fields, each a name together with the verbatim text of its declared
//! type expression.

use vstd::prelude::*;

verus! {

/// Which of the two derives is being generated. The not-a-struct
/// diagnostic names the derive it comes from.
#[derive(Debug, Clone, Copy, PartialEq, Eq, Structural)]
pub enum DeriveKind {
    /// The compact serializer derive.
    Serialize,
    /// The compact deserializer derive.
    Deserialize,
}

/// One generation-time failure. Generation aborts on the first of these;
/// no partial output is ever produced.
#[derive(Debug, Clone, Copy, PartialEq, Eq, Structural)]
pub enum GenError {
    /// The input definition is not a struct at all (an enum or a union).
    NotAStruct(DeriveKind),
    /// The input is a struct, but its fields are positional or absent
    /// rather than named.
    FieldsNotNamed,
    /// A field inside a named-field list carries no retrievable name.
    MissingFieldName,
    /// A synthesized bound clause failed to parse back into a structured
    /// constraint: an internal invariant violation of the generator.
    BadBoundClause,
}

impl GenError {
    /// The diagnostic text reported when generation aborts.
    pub fn message(&self) -> (r: &'static str)
        ensures
            *self == GenError::NotAStruct(DeriveKind::Serialize) ==> r@
                == "SerializeCompact can only be used on structs"@,
            *self == GenError::NotAStruct(DeriveKind::Deserialize) ==> r@
                == "DeserializeCompact can only be used on structs"@,
            *self == GenError::FieldsNotNamed ==> r@ == "couldn't extract named fields"@,
            *self == GenError::MissingFieldName ==> r@ == "couldn't find struct field ident"@,
            *self == GenError::BadBoundClause ==> r@ == "couldn't parse synthesized bound clause"@,
    {
        match self {
            GenError::NotAStruct(DeriveKind::Serialize) => {
                "SerializeCompact can only be used on structs"
            },
            GenError::NotAStruct(DeriveKind::Deserialize) => {
                "DeserializeCompact can only be used on structs"
            },
            GenError::FieldsNotNamed => "couldn't extract named fields",
            GenError::MissingFieldName => "couldn't find struct field ident",
            GenError::BadBoundClause => "couldn't parse synthesized bound clause",
        }
    }
}

/// Which sort of generic parameter a declaration introduces.
#[derive(Debug, Clone, Copy, PartialEq, Eq, Structural)]
pub enum ParamKind {
    /// A lifetime parameter such as `'a`.
    Lifetime,
    /// A type parameter such as `T`.
    Ty,
    /// A const parameter such as `const N: usize`.
    Const,
}

/// One generic parameter of the record type. `ident` is the form used as
/// a type argument (`'a`, `T`, `N`); `decl` is the full declaration text,
/// bounds included (`'a`, `T: Clone`, `const N: usize`).
#[derive(Debug)]
pub struct GenericParam {
    pub kind: ParamKind,
    pub ident: String,
    pub decl: String,
}

/// The generic parameter list and where-clause of a record type.
#[derive(Debug)]
pub struct Generics {
    /// The parameters, in declaration order.
    pub params: Vec<GenericParam>,
    /// The where-clause predicates, each as verbatim text.
    pub where_preds: Vec<String>,
}

/// One field as it stands in the input definition: its name, if one is
/// retrievable, and the verbatim text of its type expression.
#[derive(Debug)]
pub struct RawField {
    pub name: Option<String>,
    pub ty: String,
}

/// The field list of a struct definition.
#[derive(Debug)]
pub enum StructFields {
    /// Named fields, in declaration order.
    Named(Vec<RawField>),
    /// Positional (tuple-struct) fields.
    Unnamed,
    /// No fields at all (a unit struct).
    Unit,
}

/// The data of the input definition.
#[derive(Debug)]
pub enum InputData {
    StructData(StructFields),
    EnumData,
    UnionData,
}

/// A record type definition as the generators see it.
#[derive(Debug)]
pub struct DeriveInputModel {
    /// The type's name.
    pub ident: String,
    /// Its generic parameters and where-clause.
    pub generics: Generics,
    /// Its data: a struct's field list, or the shape that is rejected.
    pub data: InputData,
}

/// One analysed record field: its name and the verbatim text of its
/// declared type. Order within the field sequence is significant.
#[derive(Debug)]
pub struct FieldInfo {
    pub name: String,
    pub ty: String,
}

} // verus!
