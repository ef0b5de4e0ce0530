use serde_struct_compact::deser::{derive_deser, gen_tostruct_field, render_deser_impl};
use serde_struct_compact::fields::extract_field_info;
use serde_struct_compact::generics::{
    bound_generic_types, collect_type_strings, insert_param, render_impl_generics,
    render_ty_generics, render_where_clause,
};
use serde_struct_compact::model::{
    DeriveInputModel, DeriveKind, FieldInfo, GenError, GenericParam, Generics, InputData,
    ParamKind, RawField, StructFields,
};
use serde_struct_compact::ser::{derive_ser, gen_serialize, render_ser_impl};

fn s(x: &str) -> String {
    x.to_string()
}

fn named_field(name: &str, ty: &str) -> RawField {
    RawField {
        name: Some(s(name)),
        ty: s(ty),
    }
}

fn plain_input(ident: &str, fields: Vec<RawField>) -> DeriveInputModel {
    DeriveInputModel {
        ident: s(ident),
        generics: Generics {
            params: Vec::new(),
            where_preds: Vec::new(),
        },
        data: InputData::StructData(StructFields::Named(fields)),
    }
}

fn ty_param(ident: &str, decl: &str) -> GenericParam {
    GenericParam {
        kind: ParamKind::Ty,
        ident: s(ident),
        decl: s(decl),
    }
}

#[test]
fn extractor_keeps_names_and_order() {
    let fields = StructFields::Named(vec![
        named_field("name", "String"),
        named_field("age", "u32"),
        named_field("alive", "bool"),
        named_field("friends", "Vec<String>"),
    ]);
    let fis = extract_field_info(&fields).unwrap();
    let names: Vec<&str> = fis.iter().map(|f| f.name.as_str()).collect();
    let tys: Vec<&str> = fis.iter().map(|f| f.ty.as_str()).collect();
    assert_eq!(names, vec!["name", "age", "alive", "friends"]);
    assert_eq!(tys, vec!["String", "u32", "bool", "Vec<String>"]);
}

#[test]
fn extractor_rejects_unnamed_fields() {
    assert_eq!(
        extract_field_info(&StructFields::Unnamed).unwrap_err(),
        GenError::FieldsNotNamed
    );
    assert_eq!(
        extract_field_info(&StructFields::Unit).unwrap_err(),
        GenError::FieldsNotNamed
    );
}

#[test]
fn extractor_rejects_missing_field_name() {
    let fields = StructFields::Named(vec![
        named_field("ok", "u8"),
        RawField {
            name: None,
            ty: "u8".to_string(),
        },
    ]);
    assert_eq!(
        extract_field_info(&fields).unwrap_err(),
        GenError::MissingFieldName
    );
}

#[test]
fn collect_type_strings_skips_lifetimes_and_consts() {
    let generics = Generics {
        params: vec![
            GenericParam {
                kind: ParamKind::Lifetime,
                ident: s("'a"),
                decl: s("'a"),
            },
            ty_param("T", "T: Clone"),
            GenericParam {
                kind: ParamKind::Const,
                ident: s("N"),
                decl: s("const N: usize"),
            },
            ty_param("U", "U"),
        ],
        where_preds: Vec::new(),
    };
    let idents = collect_type_strings(&generics);
    let idents: Vec<&str> = idents.iter().map(|i| i.as_str()).collect();
    assert_eq!(idents, vec!["T", "U"]);
}

#[test]
fn bound_generic_types_appends_one_clause_per_type_param() {
    let mut generics = Generics {
        params: vec![ty_param("T", "T"), ty_param("U", "U")],
        where_preds: vec![s("T: Clone")],
    };
    bound_generic_types(&mut generics, "::serde::Serialize").unwrap();
    let preds: Vec<&str> = generics.where_preds.iter().map(|p| p.as_str()).collect();
    assert_eq!(
        preds,
        vec!["T: Clone", "T: ::serde::Serialize", "U: ::serde::Serialize"]
    );
}

#[test]
fn bound_generic_types_rejects_malformed_bound() {
    let mut generics = Generics {
        params: vec![ty_param("T", "T")],
        where_preds: Vec::new(),
    };
    let e = bound_generic_types(&mut generics, "!!! not a bound !!!").unwrap_err();
    assert_eq!(e, GenError::BadBoundClause);
    assert!(generics.where_preds.is_empty());
}

#[test]
fn insert_param_goes_to_the_front() {
    let mut generics = Generics {
        params: vec![ty_param("T", "T")],
        where_preds: Vec::new(),
    };
    insert_param(
        &mut generics,
        GenericParam {
            kind: ParamKind::Lifetime,
            ident: s("'de"),
            decl: s("'de"),
        },
    );
    assert_eq!(generics.params.len(), 2);
    assert_eq!(generics.params[0].ident, "'de");
    assert_eq!(generics.params[1].ident, "T");
}

#[test]
fn generics_render_as_argument_and_declaration_lists() {
    let params = vec![
        GenericParam {
            kind: ParamKind::Lifetime,
            ident: s("'a"),
            decl: s("'a"),
        },
        ty_param("T", "T: Clone"),
    ];
    assert_eq!(render_ty_generics(&params), "<'a, T>");
    assert_eq!(render_impl_generics(&params), "<'a, T: Clone>");
    assert_eq!(render_ty_generics(&Vec::new()), "");
    assert_eq!(
        render_where_clause(&vec![s("T: Clone"), s("U: Copy")]),
        " where T: Clone, U: Copy"
    );
    assert_eq!(render_where_clause(&Vec::new()), "");
}

#[test]
fn serialize_statement_for_one_field() {
    let fi = FieldInfo {
        name: s("age"),
        ty: s("u32"),
    };
    assert_eq!(gen_serialize(&fi), "tup.serialize_element(&self.age)?;\n");
}

#[test]
fn converter_assignment_uses_positional_index() {
    let fi = FieldInfo {
        name: s("friends"),
        ty: s("Vec<String>"),
    };
    assert_eq!(gen_tostruct_field(10, &fi), "friends: self.10,\n");
    let fi0 = FieldInfo {
        name: s("name"),
        ty: s("String"),
    };
    assert_eq!(gen_tostruct_field(0, &fi0), "name: self.0,\n");
}

#[test]
fn serializer_emits_one_element_per_field_in_order() {
    let input = plain_input(
        "Basic",
        vec![
            named_field("name", "String"),
            named_field("age", "u32"),
            named_field("alive", "bool"),
            named_field("friends", "Vec<String>"),
        ],
    );
    let imp = derive_ser(input).unwrap();
    assert_eq!(imp.struct_name, "Basic");
    assert_eq!(imp.element_count, 4);
    let elements: Vec<&str> = imp.elements.iter().map(|e| e.as_str()).collect();
    assert_eq!(elements, vec!["name", "age", "alive", "friends"]);
    assert!(imp.where_preds.is_empty());
}

#[test]
fn serializer_text_for_minimal_struct() {
    let input = plain_input("P", vec![named_field("x", "u32")]);
    let imp = derive_ser(input).unwrap();
    let text = render_ser_impl(&imp);
    assert_eq!(
        text,
        "#[automatically_derived]\nimpl  ::serde::Serialize for P {\nfn serialize<__S>(&self, __serializer: __S) -> Result<__S::Ok, __S::Error> where __S: ::serde::Serializer {\nuse ::serde::ser::SerializeTuple;\nlet mut tup = __serializer.serialize_tuple(1)?;\ntup.serialize_element(&self.x)?;\ntup.end()\n}\n}\n"
    );
}

#[test]
fn deserializer_builds_positional_type_and_converter() {
    let input = plain_input(
        "Basic",
        vec![
            named_field("name", "String"),
            named_field("age", "u32"),
            named_field("alive", "bool"),
            named_field("friends", "Vec<String>"),
        ],
    );
    let imp = derive_deser(input).unwrap();
    assert_eq!(imp.struct_name, "Basic");
    assert_eq!(imp.tuplestruct_name, "__Basic__AsTuple");
    assert_eq!(imp.converter_name, "__To__Basic");
    let tys: Vec<&str> = imp.tuple_field_tys.iter().map(|t| t.as_str()).collect();
    assert_eq!(tys, vec!["String", "u32", "bool", "Vec<String>"]);
    let names: Vec<&str> = imp.field_names.iter().map(|n| n.as_str()).collect();
    assert_eq!(names, vec!["name", "age", "alive", "friends"]);
    assert_eq!(imp.mod_params.len(), 1);
    assert_eq!(imp.mod_params[0].ident, "'de");
}

#[test]
fn deserializer_text_for_minimal_struct() {
    let input = plain_input("P", vec![named_field("x", "u32")]);
    let imp = derive_deser(input).unwrap();
    let text = render_deser_impl(&imp);
    assert_eq!(
        text,
        "#[doc(hidden)]\n#[allow(non_upper_case_globals, unused_attributes, unused_qualifications, non_camel_case_types, non_snake_case)]\nconst _: () = {\n#[automatically_derived]\n#[derive(::serde_derive::Deserialize)]\nstruct __P__AsTuple (u32, );\n#[automatically_derived]\nimpl  __P__AsTuple {\npub fn __To__P(self) -> P {\nP {\nx: self.0,\n}\n}\n}\n#[automatically_derived]\nimpl <'de> ::serde::Deserialize<'de> for P {\nfn deserialize<__D>(__deserializer: __D) -> core::result::Result<Self, __D::Error> where __D: ::serde::Deserializer<'de> {\nOk(__P__AsTuple::deserialize(__deserializer)?.__To__P())\n}\n}\n};\n"
    );
}

#[test]
fn generic_type_params_acquire_capability_bounds() {
    let make = || DeriveInputModel {
        ident: s("Wrap"),
        generics: Generics {
            params: vec![ty_param("T", "T: Clone")],
            where_preds: Vec::new(),
        },
        data: InputData::StructData(StructFields::Named(vec![named_field("item", "T")])),
    };
    let ser = derive_ser(make()).unwrap();
    let preds: Vec<&str> = ser.where_preds.iter().map(|p| p.as_str()).collect();
    assert_eq!(preds, vec!["T: ::serde::Serialize"]);
    let ser_text = render_ser_impl(&ser);
    assert!(ser_text.contains("impl <T: Clone> ::serde::Serialize for Wrap<T> where T: ::serde::Serialize"));

    let deser = derive_deser(make()).unwrap();
    let mod_preds: Vec<&str> = deser.mod_where_preds.iter().map(|p| p.as_str()).collect();
    assert_eq!(mod_preds, vec!["T: ::serde::Deserialize<'de>"]);
    let idents: Vec<&str> = deser.mod_params.iter().map(|p| p.ident.as_str()).collect();
    assert_eq!(idents, vec!["'de", "T"]);
    let deser_text = render_deser_impl(&deser);
    assert!(deser_text.contains(
        "impl <'de, T: Clone> ::serde::Deserialize<'de> for Wrap<T> where T: ::serde::Deserialize<'de>"
    ));
    assert!(deser_text.contains("struct __Wrap__AsTuple<T> (T, );"));
}

#[test]
fn serializer_keeps_existing_where_clause_first() {
    let input = DeriveInputModel {
        ident: s("Pair"),
        generics: Generics {
            params: vec![ty_param("A", "A"), ty_param("B", "B")],
            where_preds: vec![s("A: Default")],
        },
        data: InputData::StructData(StructFields::Named(vec![
            named_field("left", "A"),
            named_field("right", "B"),
        ])),
    };
    let imp = derive_ser(input).unwrap();
    let preds: Vec<&str> = imp.where_preds.iter().map(|p| p.as_str()).collect();
    assert_eq!(
        preds,
        vec!["A: Default", "A: ::serde::Serialize", "B: ::serde::Serialize"]
    );
}

#[test]
fn serialize_by_ref() {
    // A record of borrowed views still gets a serializer: generation
    // succeeds no matter what the field types are, since types pass
    // through verbatim. (Whether a deserializer for the same shape
    // type-checks is decided later, by the compiler, not here.)
    let input = plain_input(
        "Basic3",
        vec![
            named_field("strref", "&'static str"),
            named_field("slice", "&'static [u8]"),
        ],
    );
    let imp = derive_ser(input).unwrap();
    assert_eq!(imp.element_count, 2);
    let elements: Vec<&str> = imp.elements.iter().map(|e| e.as_str()).collect();
    assert_eq!(elements, vec!["strref", "slice"]);
}

#[test]
fn synthesized_lifetime_avoids_declared_ones() {
    // A record that already declares 'de gets a fresh borrowed-input
    // lifetime, never a duplicate parameter.
    let input = DeriveInputModel {
        ident: s("Holder"),
        generics: Generics {
            params: vec![
                GenericParam {
                    kind: ParamKind::Lifetime,
                    ident: s("'de"),
                    decl: s("'de"),
                },
                ty_param("T", "T"),
            ],
            where_preds: Vec::new(),
        },
        data: InputData::StructData(StructFields::Named(vec![named_field("item", "&'de T")])),
    };
    let imp = derive_deser(input).unwrap();
    assert_eq!(imp.de_lifetime, "'de_");
    assert_eq!(imp.mod_params[0].ident, "'de_");
    let mod_preds: Vec<&str> = imp.mod_where_preds.iter().map(|p| p.as_str()).collect();
    assert_eq!(mod_preds, vec!["T: ::serde::Deserialize<'de_>"]);
    let text = render_deser_impl(&imp);
    assert!(text.contains(
        "impl <'de_, 'de, T> ::serde::Deserialize<'de_> for Holder<'de, T> where T: ::serde::Deserialize<'de_>"
    ));
}

#[test]
fn synthesized_lifetime_skips_every_collision() {
    let input = DeriveInputModel {
        ident: s("Chain"),
        generics: Generics {
            params: vec![
                GenericParam {
                    kind: ParamKind::Lifetime,
                    ident: s("'de"),
                    decl: s("'de"),
                },
                GenericParam {
                    kind: ParamKind::Lifetime,
                    ident: s("'de_"),
                    decl: s("'de_"),
                },
            ],
            where_preds: Vec::new(),
        },
        data: InputData::StructData(StructFields::Named(vec![named_field(
            "text",
            "&'de str",
        )])),
    };
    let imp = derive_deser(input).unwrap();
    assert_eq!(imp.de_lifetime, "'de__");
}

#[test]
fn derives_reject_non_struct_input() {
    let enum_input = DeriveInputModel {
        ident: s("E"),
        generics: Generics {
            params: Vec::new(),
            where_preds: Vec::new(),
        },
        data: InputData::EnumData,
    };
    assert_eq!(
        derive_ser(enum_input).unwrap_err(),
        GenError::NotAStruct(DeriveKind::Serialize)
    );
    let union_input = DeriveInputModel {
        ident: s("U"),
        generics: Generics {
            params: Vec::new(),
            where_preds: Vec::new(),
        },
        data: InputData::UnionData,
    };
    assert_eq!(
        derive_deser(union_input).unwrap_err(),
        GenError::NotAStruct(DeriveKind::Deserialize)
    );
}

#[test]
fn derives_reject_tuple_structs() {
    let input = DeriveInputModel {
        ident: s("T"),
        generics: Generics {
            params: Vec::new(),
            where_preds: Vec::new(),
        },
        data: InputData::StructData(StructFields::Unnamed),
    };
    assert_eq!(derive_ser(input).unwrap_err(), GenError::FieldsNotNamed);
}

#[test]
fn derives_reject_nameless_field() {
    let input = DeriveInputModel {
        ident: s("T"),
        generics: Generics {
            params: Vec::new(),
            where_preds: Vec::new(),
        },
        data: InputData::StructData(StructFields::Named(vec![RawField {
            name: None,
            ty: s("u8"),
        }])),
    };
    assert_eq!(derive_deser(input).unwrap_err(), GenError::MissingFieldName);
}

#[test]
fn diagnostics_have_messages() {
    assert_eq!(
        GenError::NotAStruct(DeriveKind::Serialize).message(),
        "SerializeCompact can only be used on structs"
    );
    assert_eq!(
        GenError::NotAStruct(DeriveKind::Deserialize).message(),
        "DeserializeCompact can only be used on structs"
    );
    assert_eq!(GenError::FieldsNotNamed.message(), "couldn't extract named fields");
    assert_eq!(
        GenError::MissingFieldName.message(),
        "couldn't find struct field ident"
    );
    assert_eq!(
        GenError::BadBoundClause.message(),
        "couldn't parse synthesized bound clause"
    );
}
