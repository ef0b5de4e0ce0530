//! The generic-bound resolver: computes, for a capability being generated,
//! the extra where-clause predicates that constrain every generic type
//! parameter of the record type, and can place an extra lifetime parameter
//! at the front of the parameter list.

use vstd::prelude::*;

use crate::model::{GenError, GenericParam, Generics, ParamKind};

verus! {

/// Relies on syn::parse_str::<syn::WherePredicate> to check that one
/// synthesized bound clause is structurally well formed. Whether a given
/// text is accepted is the parser's decision and can depend on the
/// lexing context (inside a live macro expansion the host compiler's
/// lexer takes part in tokenizing; elsewhere proc-macro2's own lexer
/// runs), so nothing is assumed of the outcome: the caller states what
/// holds of either answer.
#[verifier::external_body]
fn where_predicate_parses(s: &str) -> bool {
    syn::parse_str::<syn::WherePredicate>(s).is_ok()
}

/// The idents of the generic type parameters, in declaration order,
/// lifetime and const parameters left out.
pub open spec fn type_param_idents(ps: Seq<GenericParam>) -> Seq<String>
    decreases ps.len(),
{
    if ps.len() == 0 {
        Seq::empty()
    } else {
        type_param_idents(ps.drop_last()) + (if ps.last().kind is Ty {
            seq![ps.last().ident]
        } else {
            Seq::empty()
        })
    }
}

/// The bound clause synthesized for one type parameter: `IDENT: BOUND`.
pub open spec fn bound_clause(ident: Seq<char>, bound: Seq<char>) -> Seq<char> {
    ident + ": "@ + bound
}

/// Collects the ident of each generic type parameter, in order.
pub fn collect_type_strings(generics: &Generics) -> (r: Vec<String>)
    ensures
        r@ == type_param_idents(generics.params@),
{
    let ps = &generics.params;
    let mut result: Vec<String> = Vec::new();
    let mut i: usize = 0;
    while i < ps.len()
        invariant
            0 <= i <= ps.len(),
            result@ == type_param_idents(ps@.take(i as int)),
        decreases ps.len() - i,
    {
        proof {
            crate::text::lemma_take_one_more(ps@, i as int);
        }
        match ps[i].kind {
            ParamKind::Ty => {
                result.push(ps[i].ident.clone());
            },
            _ => {
                proof {
                    assert(type_param_idents(ps@.take(i + 1)) =~= type_param_idents(
                        ps@.take(i as int),
                    ));
                }
            },
        }
        i = i + 1;
    }
    proof {
        assert(ps@.take(ps@.len() as int) =~= ps@);
    }
    result
}

/// Appends to the where-clause one `X: BOUND` predicate for each generic
/// type parameter `X`, in declaration order. Each synthesized clause is
/// handed to the outside parser as a well-formedness check; should the
/// parser reject one, generation aborts and the generics are left
/// untouched.
pub fn bound_generic_types(generics: &mut Generics, bound: &str) -> (r: Result<(), GenError>)
    ensures
        r is Ok ==> {
            let idents = type_param_idents(old(generics).params@);
            &&& final(generics).params@ == old(generics).params@
            &&& final(generics).where_preds@.len() == old(generics).where_preds@.len()
                + idents.len()
            &&& (forall|i: int|
                0 <= i < old(generics).where_preds@.len() ==> final(generics).where_preds@[i]
                    == old(generics).where_preds@[i])
            &&& (forall|j: int|
                0 <= j < idents.len() ==> #[trigger] final(generics).where_preds@[old(
                    generics,
                ).where_preds@.len() + j]@ == bound_clause(idents[j]@, bound@))
        },
        r is Err ==> r == Err::<(), GenError>(GenError::BadBoundClause) && *final(generics) == *old(
            generics,
        ),
{
    let ghost idents_spec = type_param_idents(old(generics).params@);
    let idents = collect_type_strings(generics);
    let mut clauses: Vec<String> = Vec::new();
    let mut i: usize = 0;
    while i < idents.len()
        invariant
            0 <= i <= idents.len(),
            idents@ == idents_spec,
            idents_spec == type_param_idents(old(generics).params@),
            *generics == *old(generics),
            clauses@.len() == i,
            forall|j: int|
                0 <= j < i ==> #[trigger] clauses@[j]@ == bound_clause(idents_spec[j]@, bound@),
        decreases idents.len() - i,
    {
        let mut c = idents[i].clone();
        c.append(": ");
        c.append(bound);
        if !where_predicate_parses(c.as_str()) {
            return Err(GenError::BadBoundClause);
        }
        clauses.push(c);
        i = i + 1;
    }
    let ghost cl = clauses@;
    let ghost prev = generics.where_preds@;
    generics.where_preds.append(&mut clauses);
    proof {
        assert(generics.where_preds@ == prev + cl);
        assert forall|j: int| 0 <= j < idents_spec.len() implies #[trigger] generics.where_preds@[
            prev.len() + j
        ]@ == bound_clause(idents_spec[j]@, bound@) by {
            assert(generics.where_preds@[prev.len() + j] == cl[j]);
        }
    }
    Ok(())
}

/// The type-argument forms of the parameters, in order.
pub open spec fn idents_of(ps: Seq<GenericParam>) -> Seq<Seq<char>> {
    ps.map_values(|p: GenericParam| p.ident@)
}

/// The full declaration forms of the parameters, in order.
pub open spec fn decls_of(ps: Seq<GenericParam>) -> Seq<Seq<char>> {
    ps.map_values(|p: GenericParam| p.decl@)
}

/// A comma-separated list in angle brackets, or nothing when the list is
/// empty.
pub open spec fn angle_list_text(parts: Seq<Seq<char>>) -> Seq<char> {
    if parts.len() == 0 {
        Seq::empty()
    } else {
        "<"@ + crate::text::joined(parts, ", "@) + ">"@
    }
}

/// The type-argument list as it follows the type's name: `<'a, T>`.
pub open spec fn ty_generics_text(ps: Seq<GenericParam>) -> Seq<char> {
    angle_list_text(idents_of(ps))
}

/// The parameter declaration list as it follows `impl`: `<'a, T: Clone>`.
pub open spec fn impl_generics_text(ps: Seq<GenericParam>) -> Seq<char> {
    angle_list_text(decls_of(ps))
}

/// The rendered where-clause, or nothing when there is no predicate.
pub open spec fn where_clause_text(preds: Seq<String>) -> Seq<char> {
    if preds.len() == 0 {
        Seq::empty()
    } else {
        " where "@ + crate::text::joined(crate::text::views_of(preds), ", "@)
    }
}

fn render_angle_list(parts: &Vec<String>) -> (r: String)
    ensures
        r@ == angle_list_text(crate::text::views_of(parts@)),
{
    if parts.len() == 0 {
        let r = String::new();
        assert(r@ =~= angle_list_text(crate::text::views_of(parts@)));
        r
    } else {
        let mut r = String::from_str("<");
        r.append(crate::text::join_strings(parts, ", ").as_str());
        r.append(">");
        r
    }
}

/// Renders the type-argument list of the parameters: `<'a, T>`.
pub fn render_ty_generics(ps: &Vec<GenericParam>) -> (r: String)
    ensures
        r@ == ty_generics_text(ps@),
{
    let mut idents: Vec<String> = Vec::new();
    let mut i: usize = 0;
    while i < ps.len()
        invariant
            0 <= i <= ps.len(),
            idents@.len() == i,
            forall|j: int| 0 <= j < i ==> #[trigger] idents@[j] == ps@[j].ident,
        decreases ps.len() - i,
    {
        idents.push(ps[i].ident.clone());
        i = i + 1;
    }
    proof {
        assert(crate::text::views_of(idents@) =~= idents_of(ps@));
    }
    render_angle_list(&idents)
}

/// Renders the declaration list of the parameters: `<'a, T: Clone>`.
pub fn render_impl_generics(ps: &Vec<GenericParam>) -> (r: String)
    ensures
        r@ == impl_generics_text(ps@),
{
    let mut decls: Vec<String> = Vec::new();
    let mut i: usize = 0;
    while i < ps.len()
        invariant
            0 <= i <= ps.len(),
            decls@.len() == i,
            forall|j: int| 0 <= j < i ==> #[trigger] decls@[j] == ps@[j].decl,
        decreases ps.len() - i,
    {
        decls.push(ps[i].decl.clone());
        i = i + 1;
    }
    proof {
        assert(crate::text::views_of(decls@) =~= decls_of(ps@));
    }
    render_angle_list(&decls)
}

/// Renders the where-clause from its predicate list.
pub fn render_where_clause(preds: &Vec<String>) -> (r: String)
    ensures
        r@ == where_clause_text(preds@),
{
    if preds.len() == 0 {
        let r = String::new();
        assert(r@ =~= where_clause_text(preds@));
        r
    } else {
        let mut r = String::from_str(" where ");
        r.append(crate::text::join_strings(preds, ", ").as_str());
        r
    }
}

/// Places `param` at the front of the generic parameter list, leaving the
/// where-clause as it was.
pub fn insert_param(generics: &mut Generics, param: GenericParam)
    ensures
        final(generics).params@ == seq![param] + old(generics).params@,
        final(generics).where_preds == old(generics).where_preds,
{
    let ghost p = param;
    generics.params.insert(0, param);
    proof {
        assert(generics.params@ =~= seq![p] + old(generics).params@);
    }
}

} // verus!
