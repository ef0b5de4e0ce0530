//! The field extractor: turns a struct definition into the ordered field
//! sequence that both generators consume. Anything that is not a struct
//! with exclusively named fields is rejected.

use vstd::prelude::*;

use crate::model::{DeriveInputModel, FieldInfo, GenError, RawField, StructFields};

verus! {

/// Every field in the list carries a retrievable name.
pub open spec fn all_named(fs: Seq<RawField>) -> bool {
    forall|i: int| 0 <= i < fs.len() ==> fs[i].name is Some
}

/// The analysed form of one named field.
pub open spec fn field_of(f: RawField) -> FieldInfo {
    FieldInfo { name: f.name->0, ty: f.ty }
}

/// The ordered field sequence extracted from a named-field list.
pub open spec fn fields_of(fs: Seq<RawField>) -> Seq<FieldInfo> {
    fs.map_values(|f: RawField| field_of(f))
}

/// The field names, in declaration order.
pub open spec fn field_names(fs: Seq<FieldInfo>) -> Seq<String> {
    fs.map_values(|f: FieldInfo| f.name)
}

/// The field type texts, in declaration order.
pub open spec fn field_tys(fs: Seq<FieldInfo>) -> Seq<String> {
    fs.map_values(|f: FieldInfo| f.ty)
}

/// The input shape both generators accept: a struct with exclusively
/// named fields, every field's name retrievable.
pub open spec fn named_field_struct(input: DeriveInputModel) -> bool {
    &&& input.data is StructData
    &&& input.data->StructData_0 is Named
    &&& all_named(input.data->StructData_0->Named_0@)
}

/// Extracts the ordered field sequence from a struct's field list.
///
/// Succeeds exactly on a named-field list in which every field has a
/// name; the result then lists every field, in declaration order, with
/// its name and the verbatim text of its type.
pub fn extract_field_info(s: &StructFields) -> (r: Result<Vec<FieldInfo>, GenError>)
    ensures
        r is Ok <==> (s is Named && all_named(s->Named_0@)),
        r is Ok ==> r->Ok_0@ == fields_of(s->Named_0@),
        (s is Named && !all_named(s->Named_0@)) ==> r == Err::<Vec<FieldInfo>, GenError>(
            GenError::MissingFieldName,
        ),
        !(s is Named) ==> r == Err::<Vec<FieldInfo>, GenError>(GenError::FieldsNotNamed),
{
    match s {
        StructFields::Named(fs) => {
            let mut result: Vec<FieldInfo> = Vec::new();
            let mut i: usize = 0;
            while i < fs.len()
                invariant
                    s is Named,
                    *fs == s->Named_0,
                    0 <= i <= fs.len(),
                    all_named(fs@.take(i as int)),
                    result@ == fields_of(fs@.take(i as int)),
                decreases fs.len() - i,
            {
                match &fs[i].name {
                    Some(ident) => {
                        let fi = FieldInfo { name: ident.clone(), ty: fs[i].ty.clone() };
                        result.push(fi);
                        proof {
                            crate::text::lemma_take_one_more(fs@, i as int);
                            assert(fields_of(fs@.take(i + 1)) =~= fields_of(
                                fs@.take(i as int),
                            ).push(field_of(fs@[i as int])));
                        }
                    },
                    None => {
                        proof {
                            assert(s is Named);
                            assert(fs@[i as int].name is None);
                            assert(!all_named(fs@));
                        }
                        return Err(GenError::MissingFieldName);
                    },
                }
                i = i + 1;
            }
            proof {
                assert(fs@.take(fs@.len() as int) =~= fs@);
            }
            Ok(result)
        },
        StructFields::Unnamed => Err(GenError::FieldsNotNamed),
        StructFields::Unit => Err(GenError::FieldsNotNamed),
    }
}

} // verus!
