//! The deserializer generator: produces the implementation fragment that
//! reads a fixed-length tuple into a hidden positional type with the same
//! field types in the same order, then converts that positional value into
//! the named record. The implementation borrows from its input, so the
//! generator synthesizes one lifetime parameter that is not already
//! declared on the type and places it first.

use vstd::prelude::*;

use crate::fields::{all_named, extract_field_info, field_names, field_tys, fields_of,
    named_field_struct};
use crate::generics::{
    bound_clause, bound_generic_types, impl_generics_text, insert_param, render_impl_generics,
    render_ty_generics, render_where_clause, ty_generics_text, type_param_idents, where_clause_text,
};
use crate::model::{
    DeriveInputModel, DeriveKind, FieldInfo, GenError, GenericParam, Generics, InputData, ParamKind,
};
use crate::ser::{ser_matches, SerImpl};
use crate::text::{clone_strings, dec_rep, usize_to_dec};

verus! {

/// The capability bound required of every generic type parameter on the
/// generated deserializer implementation, for the synthesized
/// borrowed-input lifetime `lt`.
pub open spec fn deser_capability_bound(lt: Seq<char>) -> Seq<char> {
    "::serde::Deserialize<"@ + lt + ">"@
}

/// The candidate lifetime ident with `k` trailing underscores: `'de`,
/// `'de_`, `'de__`, and so on.
pub open spec fn de_candidate(k: nat) -> Seq<char> {
    "'de"@ + Seq::new(k, |i: int| '_')
}

/// Some declared lifetime parameter already uses this ident.
pub open spec fn lifetime_taken(ps: Seq<GenericParam>, lt: Seq<char>) -> bool {
    exists|i: int| 0 <= i < ps.len() && (#[trigger] ps[i]).kind is Lifetime && ps[i].ident@ == lt
}

/// `lt` is the lifetime the deserializer synthesizes for a type with
/// these parameters: the first candidate that is not already declared,
/// so the generated implementation never repeats a lifetime.
pub open spec fn de_lifetime_choice(ps: Seq<GenericParam>, lt: Seq<char>) -> bool {
    exists|k: nat|
        {
            &&& lt == #[trigger] de_candidate(k)
            &&& !lifetime_taken(ps, de_candidate(k))
            &&& (forall|j: nat| j < k ==> lifetime_taken(ps, de_candidate(j)))
        }
}

/// The synthesized lifetime is uniquely determined by the parameter list.
pub proof fn lemma_de_choice_unique(ps: Seq<GenericParam>, lt1: Seq<char>, lt2: Seq<char>)
    requires
        de_lifetime_choice(ps, lt1),
        de_lifetime_choice(ps, lt2),
    ensures
        lt1 == lt2,
{
    let k1 = choose|k: nat|
        {
            &&& lt1 == #[trigger] de_candidate(k)
            &&& !lifetime_taken(ps, de_candidate(k))
            &&& (forall|j: nat| j < k ==> lifetime_taken(ps, de_candidate(j)))
        };
    let k2 = choose|k: nat|
        {
            &&& lt2 == #[trigger] de_candidate(k)
            &&& !lifetime_taken(ps, de_candidate(k))
            &&& (forall|j: nat| j < k ==> lifetime_taken(ps, de_candidate(j)))
        };
    if k1 < k2 {
        assert(lifetime_taken(ps, de_candidate(k1)));
    }
    if k2 < k1 {
        assert(lifetime_taken(ps, de_candidate(k2)));
    }
}

/// A lifetime that collides with a declared one is no longer than the
/// longest declared lifetime ident.
proof fn lemma_taken_len(ps: Seq<GenericParam>, lt: Seq<char>, maxlen: int)
    requires
        lifetime_taken(ps, lt),
        forall|j: int|
            0 <= j < ps.len() && (#[trigger] ps[j]).kind is Lifetime ==> ps[j].ident@.len()
                <= maxlen,
    ensures
        lt.len() <= maxlen,
{
    let i = choose|i: int|
        0 <= i < ps.len() && (#[trigger] ps[i]).kind is Lifetime && ps[i].ident@ == lt;
    assert(ps[i].ident@.len() <= maxlen);
}

fn lifetime_is_taken(ps: &Vec<GenericParam>, lt: &String) -> (r: bool)
    ensures
        r == lifetime_taken(ps@, lt@),
{
    let mut i: usize = 0;
    while i < ps.len()
        invariant
            0 <= i <= ps.len(),
            forall|j: int|
                0 <= j < i ==> !((#[trigger] ps@[j]).kind is Lifetime && ps@[j].ident@ == lt@),
        decreases ps.len() - i,
    {
        match ps[i].kind {
            ParamKind::Lifetime => {
                if ps[i].ident == *lt {
                    proof {
                        assert(lifetime_taken(ps@, lt@));
                    }
                    return true;
                }
            },
            _ => {},
        }
        i = i + 1;
    }
    false
}

/// Picks the borrowed-input lifetime: `'de`, with underscores appended
/// until it differs from every lifetime the type already declares.
fn choose_de_lifetime(ps: &Vec<GenericParam>) -> (r: String)
    ensures
        de_lifetime_choice(ps@, r@),
{
    let mut maxlen: usize = 0;
    let mut i: usize = 0;
    while i < ps.len()
        invariant
            0 <= i <= ps.len(),
            forall|j: int|
                0 <= j < i && (#[trigger] ps@[j]).kind is Lifetime ==> ps@[j].ident@.len()
                    <= maxlen,
        decreases ps.len() - i,
    {
        match ps[i].kind {
            ParamKind::Lifetime => {
                let l = ps[i].ident.as_str().unicode_len();
                if l > maxlen {
                    maxlen = l;
                }
            },
            _ => {},
        }
        i = i + 1;
    }
    let mut s = String::from_str("'de");
    let ghost mut k: nat = 0;
    proof {
        reveal_strlit("'de");
        assert(s@ =~= de_candidate(0));
    }
    let mut taken = lifetime_is_taken(ps, &s);
    proof {
        if taken {
            lemma_taken_len(ps@, s@, maxlen as int);
        }
    }
    while taken
        invariant
            taken == lifetime_taken(ps@, s@),
            s@ == de_candidate(k),
            s@.len() == 3 + k,
            taken ==> s@.len() <= maxlen,
            forall|j: nat| j < k ==> lifetime_taken(ps@, de_candidate(j)),
            forall|j: int|
                0 <= j < ps@.len() && (#[trigger] ps@[j]).kind is Lifetime ==> ps@[j].ident@.len()
                    <= maxlen,
        decreases maxlen + 4 - s@.len(),
    {
        s.append("_");
        proof {
            reveal_strlit("'de");
            reveal_strlit("_");
            assert(s@ =~= de_candidate(k + 1));
            k = k + 1;
        }
        taken = lifetime_is_taken(ps, &s);
        proof {
            if taken {
                lemma_taken_len(ps@, s@, maxlen as int);
            }
        }
    }
    proof {
        assert(de_lifetime_choice(ps@, s@));
    }
    s
}

/// The deterministically decorated name of the hidden positional type.
pub open spec fn tuplestruct_name_text(name: Seq<char>) -> Seq<char> {
    "__"@ + name + "__AsTuple"@
}

/// The deterministically decorated name of the converter operation.
pub open spec fn converter_name_text(name: Seq<char>) -> Seq<char> {
    "__To__"@ + name
}

/// One field of the hidden positional type: the field's type, verbatim.
pub open spec fn tuplestruct_field_text(ty: Seq<char>) -> Seq<char> {
    ty + ", "@
}

/// One converter assignment: named field `name` takes positional slot
/// `index`.
pub open spec fn tostruct_field_text(index: nat, name: Seq<char>) -> Seq<char> {
    name + ": self."@ + dec_rep(index) + ",\n"@
}

fn tuplestruct_field_for(ty: &str) -> (r: String)
    ensures
        r@ == tuplestruct_field_text(ty@),
{
    let mut r = String::from_str(ty);
    r.append(", ");
    r
}

fn tostruct_field_for(index: usize, name: &str) -> (r: String)
    ensures
        r@ == tostruct_field_text(index as nat, name@),
{
    let mut r = String::from_str(name);
    r.append(": self.");
    r.append(usize_to_dec(index).as_str());
    r.append(",\n");
    r
}

/// Generates one positional-type field from a record field.
pub fn gen_tuplestruct_field(fi: &FieldInfo) -> (r: String)
    ensures
        r@ == tuplestruct_field_text(fi.ty@),
{
    tuplestruct_field_for(fi.ty.as_str())
}

/// Generates one converter assignment: field `fi` is reassigned from
/// positional slot `index`.
pub fn gen_tostruct_field(index: usize, fi: &FieldInfo) -> (r: String)
    ensures
        r@ == tostruct_field_text(index as nat, fi.name@),
{
    tostruct_field_for(index, fi.name.as_str())
}

/// The deserializer implementation fragment, in structured form: the
/// hidden positional type, the converter, and the capability
/// implementation are all rendered from these parts.
#[derive(Debug)]
pub struct DeserImpl {
    /// The record type's name.
    pub struct_name: String,
    /// The name of the hidden positional type.
    pub tuplestruct_name: String,
    /// The name of the converter operation.
    pub converter_name: String,
    /// The synthesized borrowed-input lifetime, distinct from every
    /// lifetime the type declares.
    pub de_lifetime: String,
    /// The type's generic parameters, unchanged.
    pub params: Vec<GenericParam>,
    /// The type's own where-clause predicates, unchanged.
    pub where_preds: Vec<String>,
    /// The parameters of the capability implementation: the borrowed-input
    /// lifetime first, then the type's own parameters.
    pub mod_params: Vec<GenericParam>,
    /// The where-clause of the capability implementation: the type's own
    /// predicates followed by one deserialize-capability bound per generic
    /// type parameter.
    pub mod_where_preds: Vec<String>,
    /// The field types of the positional type, in declaration order.
    pub tuple_field_tys: Vec<String>,
    /// The field names reattached by the converter, in declaration order.
    pub field_names: Vec<String>,
}

/// How a generated deserializer fragment relates to its input definition:
/// the positional type's field types equal the record's field types in
/// declaration order, the converter reattaches the field names in the
/// same order, the decorated names derive from the record's name, the
/// capability implementation gains a fresh borrowed-input lifetime (one
/// the type does not already declare) as its first parameter, and its
/// where-clause is the input's own predicates followed by one deserialize
/// bound, over that lifetime, per generic type parameter.
pub open spec fn deser_matches(imp: DeserImpl, input: DeriveInputModel) -> bool {
    let fs = fields_of(input.data->StructData_0->Named_0@);
    let idents = type_param_idents(input.generics.params@);
    &&& imp.struct_name == input.ident
    &&& imp.tuplestruct_name@ == tuplestruct_name_text(input.ident@)
    &&& imp.converter_name@ == converter_name_text(input.ident@)
    &&& de_lifetime_choice(input.generics.params@, imp.de_lifetime@)
    &&& !lifetime_taken(input.generics.params@, imp.de_lifetime@)
    &&& imp.params@ == input.generics.params@
    &&& imp.where_preds@ == input.generics.where_preds@
    &&& imp.mod_params@.len() == 1 + input.generics.params@.len()
    &&& imp.mod_params@[0].kind is Lifetime
    &&& imp.mod_params@[0].ident@ == imp.de_lifetime@
    &&& imp.mod_params@[0].decl@ == imp.de_lifetime@
    &&& (forall|i: int|
        0 <= i < input.generics.params@.len() ==> #[trigger] imp.mod_params@[i + 1]
            == input.generics.params@[i])
    &&& imp.mod_where_preds@.len() == input.generics.where_preds@.len() + idents.len()
    &&& (forall|i: int|
        0 <= i < input.generics.where_preds@.len() ==> #[trigger] imp.mod_where_preds@[i]
            == input.generics.where_preds@[i])
    &&& (forall|j: int|
        0 <= j < idents.len() ==> #[trigger] imp.mod_where_preds@[input.generics.where_preds@.len()
            + j]@ == bound_clause(idents[j]@, deser_capability_bound(imp.de_lifetime@)))
    &&& imp.tuple_field_tys@ == field_tys(fs)
    &&& imp.field_names@ == field_names(fs)
}

/// Generates the deserializer implementation fragment for a record type
/// definition. Succeeds only on a struct with exclusively named fields;
/// any other shape aborts generation with the matching diagnostic. On an
/// accepted shape the one other possible outcome is the bound-clause
/// diagnostic, should the outside parser reject a synthesized clause.
pub fn derive_deser(input: DeriveInputModel) -> (r: Result<DeserImpl, GenError>)
    ensures
        r is Ok ==> named_field_struct(input) && deser_matches(r->Ok_0, input),
        named_field_struct(input) ==> r is Ok || r == Err::<DeserImpl, GenError>(
            GenError::BadBoundClause,
        ),
        !(input.data is StructData) ==> r == Err::<DeserImpl, GenError>(
            GenError::NotAStruct(DeriveKind::Deserialize),
        ),
        (input.data is StructData && !(input.data->StructData_0 is Named)) ==> r == Err::<
            DeserImpl,
            GenError,
        >(GenError::FieldsNotNamed),
        (input.data is StructData && input.data->StructData_0 is Named && !all_named(
            input.data->StructData_0->Named_0@,
        )) ==> r == Err::<DeserImpl, GenError>(GenError::MissingFieldName),
{
    let DeriveInputModel { ident, generics, data } = input;
    let fields = match &data {
        InputData::StructData(s) => {
            match extract_field_info(s) {
                Ok(f) => f,
                Err(e) => { return Err(e); },
            }
        },
        _ => { return Err(GenError::NotAStruct(DeriveKind::Deserialize)); },
    };
    let mut tuplestruct_name = String::from_str("__");
    tuplestruct_name.append(ident.as_str());
    tuplestruct_name.append("__AsTuple");
    let mut converter_name = String::from_str("__To__");
    converter_name.append(ident.as_str());

    let de_lifetime = choose_de_lifetime(&generics.params);
    let mut bound = String::from_str("::serde::Deserialize<");
    bound.append(de_lifetime.as_str());
    bound.append(">");

    let mut modified = Generics {
        params: clone_params(&generics.params),
        where_preds: clone_strings(&generics.where_preds),
    };
    match bound_generic_types(&mut modified, bound.as_str()) {
        Ok(u) => u,
        Err(e) => { return Err(e); },
    }
    insert_param(
        &mut modified,
        GenericParam {
            kind: ParamKind::Lifetime,
            ident: de_lifetime.clone(),
            decl: de_lifetime.clone(),
        },
    );

    let mut tuple_field_tys: Vec<String> = Vec::new();
    let mut names: Vec<String> = Vec::new();
    let mut i: usize = 0;
    while i < fields.len()
        invariant
            0 <= i <= fields.len(),
            tuple_field_tys@.len() == i,
            names@.len() == i,
            forall|j: int| 0 <= j < i ==> #[trigger] tuple_field_tys@[j] == fields@[j].ty,
            forall|j: int| 0 <= j < i ==> #[trigger] names@[j] == fields@[j].name,
        decreases fields.len() - i,
    {
        tuple_field_tys.push(fields[i].ty.clone());
        names.push(fields[i].name.clone());
        i = i + 1;
    }
    proof {
        assert(tuple_field_tys@ =~= field_tys(fields@));
        assert(names@ =~= field_names(fields@));
    }
    Ok(
        DeserImpl {
            struct_name: ident,
            tuplestruct_name,
            converter_name,
            de_lifetime,
            params: generics.params,
            where_preds: generics.where_preds,
            mod_params: modified.params,
            mod_where_preds: modified.where_preds,
            tuple_field_tys,
            field_names: names,
        },
    )
}

/// Copies a generic parameter list, preserving order and contents.
fn clone_params(ps: &Vec<GenericParam>) -> (r: Vec<GenericParam>)
    ensures
        r@ == ps@,
{
    let mut r: Vec<GenericParam> = Vec::new();
    let mut i: usize = 0;
    while i < ps.len()
        invariant
            0 <= i <= ps.len(),
            r@ == ps@.take(i as int),
        decreases ps.len() - i,
    {
        let p = GenericParam {
            kind: ps[i].kind,
            ident: ps[i].ident.clone(),
            decl: ps[i].decl.clone(),
        };
        r.push(p);
        proof {
            assert(ps@.take(i + 1) =~= ps@.take(i as int).push(ps@[i as int]));
        }
        i = i + 1;
    }
    proof {
        assert(ps@.take(ps@.len() as int) =~= ps@);
    }
    r
}

/// The positional type's field list, rendered in order.
pub open spec fn tuplestruct_fields_text(tys: Seq<String>) -> Seq<char>
    decreases tys.len(),
{
    if tys.len() == 0 {
        Seq::empty()
    } else {
        tuplestruct_fields_text(tys.drop_last()) + tuplestruct_field_text(tys.last()@)
    }
}

/// The converter's assignments, rendered in order: slot `i` feeds the
/// `i`-th field name.
pub open spec fn tostruct_fields_text(names: Seq<String>) -> Seq<char>
    decreases names.len(),
{
    if names.len() == 0 {
        Seq::empty()
    } else {
        tostruct_fields_text(names.drop_last()) + tostruct_field_text(
            (names.len() - 1) as nat,
            names.last()@,
        )
    }
}

/// The full rendered text of a deserializer fragment: a hidden constant
/// block scoping the positional type and the converter away from
/// user-visible names, and the capability implementation.
pub open spec fn deser_impl_text(imp: DeserImpl) -> Seq<char> {
    "#[doc(hidden)]\n#[allow(non_upper_case_globals, unused_attributes, unused_qualifications, non_camel_case_types, non_snake_case)]\nconst _: () = {\n#[automatically_derived]\n#[derive(::serde_derive::Deserialize)]\nstruct "@
        + imp.tuplestruct_name@ + ty_generics_text(imp.params@) + " ("@ + tuplestruct_fields_text(
        imp.tuple_field_tys@,
    ) + ")"@ + where_clause_text(imp.where_preds@) + ";\n#[automatically_derived]\nimpl "@
        + impl_generics_text(imp.params@) + " "@ + imp.tuplestruct_name@ + ty_generics_text(
        imp.params@,
    ) + where_clause_text(imp.where_preds@) + " {\npub fn "@ + imp.converter_name@
        + "(self) -> "@ + imp.struct_name@ + ty_generics_text(imp.params@) + " {\n"@
        + imp.struct_name@ + " {\n"@ + tostruct_fields_text(imp.field_names@)
        + "}\n}\n}\n#[automatically_derived]\nimpl "@ + impl_generics_text(imp.mod_params@)
        + " ::serde::Deserialize<"@ + imp.de_lifetime@ + "> for "@ + imp.struct_name@
        + ty_generics_text(imp.params@) + where_clause_text(imp.mod_where_preds@)
        + " {\nfn deserialize<__D>(__deserializer: __D) -> core::result::Result<Self, __D::Error> where __D: ::serde::Deserializer<"@
        + imp.de_lifetime@ + "> {\nOk("@ + imp.tuplestruct_name@
        + "::deserialize(__deserializer)?."@ + imp.converter_name@ + "())\n}\n}\n};\n"@
}

/// Renders a deserializer fragment as source text.
pub fn render_deser_impl(imp: &DeserImpl) -> (r: String)
    ensures
        r@ == deser_impl_text(*imp),
{
    let mut r = String::from_str(
        "#[doc(hidden)]\n#[allow(non_upper_case_globals, unused_attributes, unused_qualifications, non_camel_case_types, non_snake_case)]\nconst _: () = {\n#[automatically_derived]\n#[derive(::serde_derive::Deserialize)]\nstruct ",
    );
    r.append(imp.tuplestruct_name.as_str());
    r.append(render_ty_generics(&imp.params).as_str());
    r.append(" (");
    let mut i: usize = 0;
    let ghost mid1 = r@;
    while i < imp.tuple_field_tys.len()
        invariant
            0 <= i <= imp.tuple_field_tys.len(),
            r@ == mid1 + tuplestruct_fields_text(imp.tuple_field_tys@.take(i as int)),
        decreases imp.tuple_field_tys.len() - i,
    {
        let piece = tuplestruct_field_for(imp.tuple_field_tys[i].as_str());
        r.append(piece.as_str());
        proof {
            crate::text::lemma_take_one_more(imp.tuple_field_tys@, i as int);
        }
        i = i + 1;
    }
    proof {
        assert(imp.tuple_field_tys@.take(imp.tuple_field_tys@.len() as int)
            =~= imp.tuple_field_tys@);
    }
    r.append(")");
    r.append(render_where_clause(&imp.where_preds).as_str());
    r.append(";\n#[automatically_derived]\nimpl ");
    r.append(render_impl_generics(&imp.params).as_str());
    r.append(" ");
    r.append(imp.tuplestruct_name.as_str());
    r.append(render_ty_generics(&imp.params).as_str());
    r.append(render_where_clause(&imp.where_preds).as_str());
    r.append(" {\npub fn ");
    r.append(imp.converter_name.as_str());
    r.append("(self) -> ");
    r.append(imp.struct_name.as_str());
    r.append(render_ty_generics(&imp.params).as_str());
    r.append(" {\n");
    r.append(imp.struct_name.as_str());
    r.append(" {\n");
    let mut k: usize = 0;
    let ghost mid2 = r@;
    while k < imp.field_names.len()
        invariant
            0 <= k <= imp.field_names.len(),
            r@ == mid2 + tostruct_fields_text(imp.field_names@.take(k as int)),
        decreases imp.field_names.len() - k,
    {
        let piece = tostruct_field_for(k, imp.field_names[k].as_str());
        r.append(piece.as_str());
        proof {
            crate::text::lemma_take_one_more(imp.field_names@, k as int);
        }
        k = k + 1;
    }
    proof {
        assert(imp.field_names@.take(imp.field_names@.len() as int) =~= imp.field_names@);
    }
    r.append("}\n}\n}\n#[automatically_derived]\nimpl ");
    r.append(render_impl_generics(&imp.mod_params).as_str());
    r.append(" ::serde::Deserialize<");
    r.append(imp.de_lifetime.as_str());
    r.append("> for ");
    r.append(imp.struct_name.as_str());
    r.append(render_ty_generics(&imp.params).as_str());
    r.append(render_where_clause(&imp.mod_where_preds).as_str());
    r.append(
        " {\nfn deserialize<__D>(__deserializer: __D) -> core::result::Result<Self, __D::Error> where __D: ::serde::Deserializer<",
    );
    r.append(imp.de_lifetime.as_str());
    r.append("> {\nOk(");
    r.append(imp.tuplestruct_name.as_str());
    r.append("::deserialize(__deserializer)?.");
    r.append(imp.converter_name.as_str());
    r.append("())\n}\n}\n};\n");
    r
}

/// The ordering invariant shared by the two generation paths: for one and
/// the same input definition, the serializer's emitted elements are the
/// field names in declaration order, the deserializer's positional type
/// lists the field types in that same order, and the element count
/// matches on both sides.
pub proof fn lemma_paths_agree(s: SerImpl, d: DeserImpl, input: DeriveInputModel)
    requires
        ser_matches(s, input),
        deser_matches(d, input),
    ensures
        s.elements@ == d.field_names@,
        s.element_count == d.tuple_field_tys@.len(),
        s.element_count == d.field_names@.len(),
{
}

} // verus!
