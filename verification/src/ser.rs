//! The serializer generator: produces the implementation fragment that
//! writes a record as a fixed-length tuple of its field values, one
//! element per field, in declaration order.

use vstd::prelude::*;

use crate::fields::{all_named, extract_field_info, field_names, fields_of, named_field_struct};
use crate::generics::{
    bound_clause, bound_generic_types, impl_generics_text, render_impl_generics,
    render_ty_generics, render_where_clause, ty_generics_text, type_param_idents, where_clause_text,
};
use crate::model::{DeriveInputModel, DeriveKind, FieldInfo, GenError, GenericParam, InputData};
use crate::text::{dec_rep, usize_to_dec};

verus! {

/// The capability bound required of every generic type parameter on the
/// generated serializer implementation.
pub open spec fn ser_capability_bound() -> Seq<char> {
    "::serde::Serialize"@
}

/// The statement that writes one field as the next tuple element.
pub open spec fn serialize_element_stmt(name: Seq<char>) -> Seq<char> {
    "tup.serialize_element(&self."@ + name + ")?;\n"@
}

/// The element-writing statements for these field names, in order.
pub open spec fn serialize_stmts_text(names: Seq<String>) -> Seq<char>
    decreases names.len(),
{
    if names.len() == 0 {
        Seq::empty()
    } else {
        serialize_stmts_text(names.drop_last()) + serialize_element_stmt(names.last()@)
    }
}

fn serialize_stmt_for(name: &str) -> (r: String)
    ensures
        r@ == serialize_element_stmt(name@),
{
    let mut r = String::from_str("tup.serialize_element(&self.");
    r.append(name);
    r.append(")?;\n");
    r
}

/// Generates the element-writing statement for one field.
pub fn gen_serialize(fi: &FieldInfo) -> (r: String)
    ensures
        r@ == serialize_element_stmt(fi.name@),
{
    serialize_stmt_for(fi.name.as_str())
}

/// The serializer implementation fragment, in structured form: everything
/// the rendered code is made of.
#[derive(Debug)]
pub struct SerImpl {
    /// The record type's name.
    pub struct_name: String,
    /// The type's generic parameters, unchanged.
    pub params: Vec<GenericParam>,
    /// The where-clause of the generated implementation: the type's own
    /// predicates followed by one serialize-capability bound per generic
    /// type parameter.
    pub where_preds: Vec<String>,
    /// The fixed length of the emitted tuple.
    pub element_count: usize,
    /// The field names whose values become the tuple elements, in
    /// declaration order.
    pub elements: Vec<String>,
}

/// How a generated serializer fragment relates to its input definition:
/// the element count equals the field count, the elements are the field
/// names in declaration order, the generic parameters pass through
/// unchanged, and the where-clause is the input's own predicates followed
/// by one serialize bound per generic type parameter.
pub open spec fn ser_matches(imp: SerImpl, input: DeriveInputModel) -> bool {
    let fs = fields_of(input.data->StructData_0->Named_0@);
    let idents = type_param_idents(input.generics.params@);
    &&& imp.struct_name == input.ident
    &&& imp.params@ == input.generics.params@
    &&& imp.element_count == fs.len()
    &&& imp.elements@ == field_names(fs)
    &&& imp.where_preds@.len() == input.generics.where_preds@.len() + idents.len()
    &&& (forall|i: int|
        0 <= i < input.generics.where_preds@.len() ==> #[trigger] imp.where_preds@[i]
            == input.generics.where_preds@[i])
    &&& (forall|j: int|
        0 <= j < idents.len() ==> #[trigger] imp.where_preds@[input.generics.where_preds@.len()
            + j]@ == bound_clause(idents[j]@, ser_capability_bound()))
}

/// Generates the serializer implementation fragment for a record type
/// definition. Succeeds only on a struct with exclusively named fields;
/// any other shape aborts generation with the matching diagnostic. On an
/// accepted shape the one other possible outcome is the bound-clause
/// diagnostic, should the outside parser reject a synthesized clause.
pub fn derive_ser(input: DeriveInputModel) -> (r: Result<SerImpl, GenError>)
    ensures
        r is Ok ==> named_field_struct(input) && ser_matches(r->Ok_0, input),
        named_field_struct(input) ==> r is Ok || r == Err::<SerImpl, GenError>(
            GenError::BadBoundClause,
        ),
        !(input.data is StructData) ==> r == Err::<SerImpl, GenError>(
            GenError::NotAStruct(DeriveKind::Serialize),
        ),
        (input.data is StructData && !(input.data->StructData_0 is Named)) ==> r == Err::<
            SerImpl,
            GenError,
        >(GenError::FieldsNotNamed),
        (input.data is StructData && input.data->StructData_0 is Named && !all_named(
            input.data->StructData_0->Named_0@,
        )) ==> r == Err::<SerImpl, GenError>(GenError::MissingFieldName),
{
    let DeriveInputModel { ident, generics, data } = input;
    let fields = match &data {
        InputData::StructData(s) => {
            match extract_field_info(s) {
                Ok(f) => f,
                Err(e) => { return Err(e); },
            }
        },
        _ => { return Err(GenError::NotAStruct(DeriveKind::Serialize)); },
    };
    let mut modified = generics;
    match bound_generic_types(&mut modified, "::serde::Serialize") {
        Ok(u) => u,
        Err(e) => { return Err(e); },
    }
    let element_count = fields.len();
    let mut elements: Vec<String> = Vec::new();
    let mut i: usize = 0;
    while i < fields.len()
        invariant
            0 <= i <= fields.len(),
            elements@.len() == i,
            forall|j: int| 0 <= j < i ==> #[trigger] elements@[j] == fields@[j].name,
        decreases fields.len() - i,
    {
        elements.push(fields[i].name.clone());
        i = i + 1;
    }
    proof {
        assert(elements@ =~= field_names(fields@));
    }
    Ok(
        SerImpl {
            struct_name: ident,
            params: modified.params,
            where_preds: modified.where_preds,
            element_count,
            elements,
        },
    )
}

/// The full rendered text of a serializer fragment.
pub open spec fn ser_impl_text(imp: SerImpl) -> Seq<char> {
    "#[automatically_derived]\nimpl "@ + impl_generics_text(imp.params@)
        + " ::serde::Serialize for "@ + imp.struct_name@ + ty_generics_text(imp.params@)
        + where_clause_text(imp.where_preds@)
        + " {\nfn serialize<__S>(&self, __serializer: __S) -> Result<__S::Ok, __S::Error> where __S: ::serde::Serializer {\nuse ::serde::ser::SerializeTuple;\nlet mut tup = __serializer.serialize_tuple("@
        + dec_rep(imp.element_count as nat) + ")?;\n"@ + serialize_stmts_text(imp.elements@)
        + "tup.end()\n}\n}\n"@
}

/// Renders a serializer fragment as source text.
pub fn render_ser_impl(imp: &SerImpl) -> (r: String)
    ensures
        r@ == ser_impl_text(*imp),
{
    let mut r = String::from_str("#[automatically_derived]\nimpl ");
    r.append(render_impl_generics(&imp.params).as_str());
    r.append(" ::serde::Serialize for ");
    r.append(imp.struct_name.as_str());
    r.append(render_ty_generics(&imp.params).as_str());
    r.append(render_where_clause(&imp.where_preds).as_str());
    r.append(
        " {\nfn serialize<__S>(&self, __serializer: __S) -> Result<__S::Ok, __S::Error> where __S: ::serde::Serializer {\nuse ::serde::ser::SerializeTuple;\nlet mut tup = __serializer.serialize_tuple(",
    );
    r.append(usize_to_dec(imp.element_count).as_str());
    r.append(")?;\n");
    let mut i: usize = 0;
    let ghost mid = r@;
    while i < imp.elements.len()
        invariant
            0 <= i <= imp.elements.len(),
            r@ == mid + serialize_stmts_text(imp.elements@.take(i as int)),
        decreases imp.elements.len() - i,
    {
        let stmt = serialize_stmt_for(imp.elements[i].as_str());
        r.append(stmt.as_str());
        proof {
            crate::text::lemma_take_one_more(imp.elements@, i as int);
        }
        i = i + 1;
    }
    proof {
        assert(imp.elements@.take(imp.elements@.len() as int) =~= imp.elements@);
    }
    r.append("tup.end()\n}\n}\n");
    r
}

} // verus!
