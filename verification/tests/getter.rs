//! Tests of the option compiler: from the attributes of a field to the text
//! of its getters.

use utils_lib::getter::attribute_option::ParseOption;
use utils_lib::getter::const_ty::ConstTy;
use utils_lib::getter::error::{
    AcceptableParseError, GetterParseError, OptionParseError, OptionValidationError,
    ParseAttributeOptionError, UnacceptableParseError,
};
use utils_lib::getter::field::{Field, FieldDeclaration};
use utils_lib::getter::getter_option::GetterOption;
use utils_lib::getter::getter_ty::GetterTy;
use utils_lib::getter::name::FunctionName;
use utils_lib::getter::option::{AccessorCode, ImmutableGetterOption, MutableGetterOption};
use utils_lib::getter::option_enum::{ImmutableOptionList, MutableOptionList};
use utils_lib::getter::self_ty::SelfTy;
use utils_lib::getter::syntax::{Annotation, AnnotationValue};
use utils_lib::getter::visibility::Visibility;
use utils_lib::getter::which_getter::WhichGetter;
use utils_lib::getter::{Data, Derived, FieldOutput, Fields};

fn named(ident: &str, ty: &str, attrs: Vec<Annotation>) -> Field {
    Field::new(
        FieldDeclaration {
            attrs,
            ident: Some(ident.to_owned()),
            ty: ty.to_owned(),
        },
        0,
    )
}

fn unnamed(index: usize, ty: &str, attrs: Vec<Annotation>) -> Field {
    Field::new(
        FieldDeclaration {
            attrs,
            ident: None,
            ty: ty.to_owned(),
        },
        index,
    )
}

fn declaration(ident: Option<&str>, ty: &str, attrs: Vec<Annotation>) -> FieldDeclaration {
    FieldDeclaration {
        attrs,
        ident: ident.map(str::to_owned),
        ty: ty.to_owned(),
    }
}

fn codes(field: Field) -> Vec<AccessorCode> {
    GetterOption::parse(field).expect("valid").to_code()
}

#[test]
fn defaults_of_an_empty_argument_list() {
    let immutable = ImmutableGetterOption::parse(&[]).expect("no error");
    assert_eq!(immutable, ImmutableGetterOption::default());
    assert_eq!(immutable.const_ty(), ConstTy::NonConstant);
    assert_eq!(immutable.ty(), GetterTy::Ref);
    assert_eq!(immutable.self_ty(), SelfTy::Ref);
    assert_eq!(immutable.option().visibility(), &Visibility::Private);
    assert_eq!(immutable.option().name(), &FunctionName::new(None));

    let mutable = MutableGetterOption::parse(&[]).expect("no error");
    assert_eq!(mutable, MutableGetterOption::default());
    assert_eq!(mutable.visibility(), &Visibility::Private);
    assert_eq!(mutable.name(), &FunctionName::default());

    assert_eq!(
        WhichGetter::default(),
        WhichGetter::Immutable(ImmutableGetterOption::default())
    );
}

#[test]
fn later_attribute_wins() {
    let field = named(
        "f",
        "()",
        vec![
            Annotation::list("get", "name = \"first\""),
            Annotation::list("get", "name = \"second\""),
        ],
    );
    let out = codes(field);
    assert_eq!(out.len(), 1);
    assert_eq!(
        out[0].declaration,
        "#[inline]\n#[must_use]\nfn second(&self) -> &() {\n    &self.f\n}"
    );
}

#[test]
fn later_mutable_attribute_wins() {
    let field = named(
        "g",
        "()",
        vec![
            Annotation::word("get"),
            Annotation::list("get_mut", "name = \"field_mut\""),
            Annotation::list("get_mut", "name = \"get_mut\""),
        ],
    );
    let out = codes(field);
    assert_eq!(out.len(), 2);
    assert_eq!(
        out[0].declaration,
        "#[inline]\n#[must_use]\nfn g(&self) -> &() {\n    &self.g\n}"
    );
    assert_eq!(
        out[1].declaration,
        "#[inline]\n#[must_use]\nfn get_mut(&mut self) -> &mut () {\n    &mut self.g\n}"
    );
}

#[test]
fn duplicate_option_in_one_attribute() {
    let field = named(
        "f",
        "usize",
        vec![Annotation::list("get", "name = \"a\", name = \"b\"")],
    );
    let error = GetterOption::parse(field).expect_err("duplicate");
    assert_eq!(
        error,
        OptionParseError::GetterParseError(
            GetterParseError::FieldAttributeOptionSetMultipleTimes(
                ImmutableOptionList::MutableOption(MutableOptionList::IdentOption)
            )
        )
    );
    assert_eq!(error.message(), "name is set multiple times");

    let args = [Annotation::word("public"), Annotation::list("visibility", "Pub")];
    assert_eq!(
        MutableGetterOption::parse(&args),
        Err(GetterParseError::FieldAttributeOptionSetMultipleTimes(
            MutableOptionList::Visibility
        ))
    );
}

#[test]
fn tuple_field_needs_a_name() {
    let bare = unnamed(0, "f32", vec![Annotation::word("get")]);
    assert_eq!(
        GetterOption::parse(bare),
        Err(OptionParseError::OptionValidationError(
            OptionValidationError::FunctionNameMissing
        ))
    );
    let bare_mut = unnamed(0, "f32", vec![Annotation::word("get_mut")]);
    assert_eq!(
        GetterOption::parse(bare_mut),
        Err(OptionParseError::OptionValidationError(
            OptionValidationError::FunctionNameMissing
        ))
    );
    let both = unnamed(
        1,
        "f32",
        vec![
            Annotation::list("get", "name = \"x\""),
            Annotation::word("get_mut"),
        ],
    );
    assert_eq!(
        GetterOption::parse(both),
        Err(OptionParseError::OptionValidationError(
            OptionValidationError::FunctionNameMissing
        ))
    );

    let renamed = unnamed(2, "usize", vec![Annotation::list("get", "name = \"x\"")]);
    let out = codes(renamed);
    assert_eq!(out.len(), 1);
    assert_eq!(
        out[0].declaration,
        "#[inline]\n#[must_use]\nfn x(&self) -> &usize {\n    &self.2\n}"
    );
    assert_eq!(
        out[0].comment,
        "Getter on a reference of the field `2` with type [`usize`]."
    );
}

#[test]
fn receiver_and_return_conflict() {
    let explicit = named(
        "f",
        "u32",
        vec![Annotation::list("get", "self_ty = \"value\", getter_ty = \"by_ref\"")],
    );
    assert_eq!(
        GetterOption::parse(explicit),
        Err(OptionParseError::OptionValidationError(
            OptionValidationError::SelfMoveOnReturnRef
        ))
    );
    let implicit = named("f", "u32", vec![Annotation::list("get", "self_ty = \"value\"")]);
    assert_eq!(
        GetterOption::parse(implicit),
        Err(OptionParseError::OptionValidationError(
            OptionValidationError::SelfMoveOnReturnRef
        ))
    );
    let spelled = named(
        "f",
        "u32",
        vec![Annotation::list("get", "self_ty = \"value\", getter_ty = \"ref\"")],
    );
    assert_eq!(
        GetterOption::parse(spelled),
        Err(OptionParseError::OptionValidationError(
            OptionValidationError::SelfMoveOnReturnRef
        ))
    );
    let unknown = named(
        "f",
        "u32",
        vec![Annotation::list("get", "self_ty = \"value\", getter_ty = \"reference\"")],
    );
    assert_eq!(
        GetterOption::parse(unknown),
        Err(OptionParseError::GetterParseError(
            GetterParseError::AddConfigError(
                UnacceptableParseError::RightHandValueInvalid,
                ImmutableOptionList::GetterTy
            )
        ))
    );

    let copy = named(
        "f",
        "u32",
        vec![Annotation::list("get", "self_ty = \"value\", getter_ty = \"copy\"")],
    );
    let out = codes(copy);
    assert_eq!(
        out[0].declaration,
        "#[inline]\n#[must_use]\nfn f(self) -> u32 {\n    self.f\n}"
    );
    assert_eq!(
        out[0].comment,
        "Getter on a copied value of the field `f` with type [`u32`]."
    );
}

#[test]
fn spellings_of_public() {
    let spellings = [
        Annotation::word("public"),
        Annotation::word("Public"),
        Annotation::word("pub"),
        Annotation::name_text("visibility", "public"),
        Annotation::word("Pub"),
        Annotation::list("visibility", "public"),
        Annotation::name_text("Visibility", "pub"),
    ];
    for spelling in spellings {
        let visibility = Visibility::parse_option(&spelling).expect("public");
        assert_eq!(visibility, Visibility::Public);
        assert_eq!(visibility.quote(), "pub ");
    }
}

#[test]
fn spellings_of_the_other_visibilities() {
    assert_eq!(
        Visibility::visibility_from_path_str("crate"),
        Some(Visibility::Crate(None))
    );
    assert_eq!(
        Visibility::visibility_from_path_str("Crate"),
        Some(Visibility::Crate(None))
    );
    assert_eq!(
        Visibility::visibility_from_path_str("private"),
        Some(Visibility::Private)
    );
    assert_eq!(
        Visibility::visibility_from_path_str("Private"),
        Some(Visibility::Private)
    );
    assert_eq!(
        Visibility::visibility_from_path_str("pub(super)"),
        Some(Visibility::Crate(Some("super".to_owned())))
    );
    assert_eq!(
        Visibility::visibility_from_path_str("pub(crate::a::b)"),
        Some(Visibility::Crate(Some("crate::a::b".to_owned())))
    );
    assert_eq!(Visibility::visibility_from_path_str("pub(1)"), None);
    assert_eq!(Visibility::visibility_from_path_str("pub()"), None);
    assert_eq!(Visibility::visibility_from_path_str("pub(super"), None);
    assert_eq!(Visibility::visibility_from_path_str("pubs(super)"), None);
    assert_eq!(Visibility::visibility_from_path_str("PUBLIC"), None);
    assert_eq!(Visibility::visibility_from_path_str(""), None);

    assert_eq!(Visibility::Private.quote(), "");
    assert_eq!(Visibility::Crate(None).quote(), "pub(crate) ");
    assert_eq!(
        Visibility::Crate(Some("super".to_owned())).quote(),
        "pub(super) "
    );
    assert_eq!(Visibility::from_scope("super", true), Some(Visibility::Crate(Some("super".to_owned()))));
    assert_eq!(Visibility::from_scope("super", false), None);
    assert_eq!(Visibility::default(), Visibility::Private);
}

#[test]
fn both_getters_of_one_field() {
    let field = named(
        "f",
        "Vec<usize>",
        vec![Annotation::word("get"), Annotation::word("get_mut")],
    );
    let option = GetterOption::parse(field).expect("valid");
    assert_eq!(
        option.which(),
        &WhichGetter::Both {
            immutable: ImmutableGetterOption::default(),
            mutable: MutableGetterOption::default(),
        }
    );
    assert_eq!(option.validate(), Ok(()));
    let out = option.to_code();
    assert_eq!(out.len(), 2);
    assert_eq!(
        out[0],
        AccessorCode {
            comment: "Getter on a reference of the field `f` with type [`Vec<usize>`]."
                .to_owned(),
            declaration:
                "#[inline]\n#[must_use]\nfn f(&self) -> &Vec<usize> {\n    &self.f\n}"
                    .to_owned(),
        }
    );
    assert_eq!(
        out[1],
        AccessorCode {
            comment:
                "Getter on a mutable reference of the field f with type [`Vec<usize>`]."
                    .to_owned(),
            declaration:
                "#[inline]\n#[must_use]\nfn f_mut(&mut self) -> &mut Vec<usize> {\n    &mut self.f\n}"
                    .to_owned(),
        }
    );
}

#[test]
fn merge_of_selections() {
    let public = MutableGetterOption::parse(&[Annotation::word("public")]).expect("valid");
    let named_m = MutableGetterOption::parse(&[Annotation::name_text("name", "m")]).expect("valid");
    let constant = ImmutableGetterOption::parse(&[Annotation::word("Const")]).expect("valid");
    let copied = ImmutableGetterOption::parse(&[Annotation::word("copy")]).expect("valid");

    assert_eq!(
        WhichGetter::Mutable(public.clone()).add_config(WhichGetter::Mutable(named_m.clone())),
        WhichGetter::Mutable(named_m.clone())
    );
    assert_eq!(
        WhichGetter::Immutable(constant.clone())
            .add_config(WhichGetter::Immutable(copied.clone())),
        WhichGetter::Immutable(copied.clone())
    );
    assert_eq!(
        WhichGetter::Immutable(constant.clone()).add_config(WhichGetter::Mutable(public.clone())),
        WhichGetter::Both {
            immutable: constant.clone(),
            mutable: public.clone()
        }
    );
    assert_eq!(
        WhichGetter::Mutable(public.clone()).add_config(WhichGetter::Immutable(constant.clone())),
        WhichGetter::Both {
            immutable: constant.clone(),
            mutable: public.clone()
        }
    );
    let both = WhichGetter::Both {
        immutable: constant.clone(),
        mutable: public.clone(),
    };
    assert_eq!(
        both.clone().add_config(WhichGetter::Immutable(copied.clone())),
        WhichGetter::Both {
            immutable: copied.clone(),
            mutable: public.clone()
        }
    );
    assert_eq!(
        both.clone().add_config(WhichGetter::Mutable(named_m.clone())),
        WhichGetter::Both {
            immutable: constant.clone(),
            mutable: named_m.clone()
        }
    );
    let other = WhichGetter::Both {
        immutable: copied,
        mutable: named_m,
    };
    assert_eq!(both.add_config(other.clone()), other.clone());
    assert_eq!(WhichGetter::Mutable(public).add_config(other.clone()), other);
}

#[test]
fn fieldless_struct() {
    let message = "The trait getter cannot be derive on fieldless struct.".to_owned();
    assert_eq!(
        utils_lib::getter::derive(Data::Struct(Fields::Unit)),
        Derived::Failure(message.clone())
    );
    assert_eq!(
        utils_lib::getter::derive(Data::Struct(Fields::Named(Vec::new()))),
        Derived::Failure(message.clone())
    );
    assert_eq!(
        utils_lib::getter::derive(Data::Struct(Fields::Unnamed(Vec::new()))),
        Derived::Failure(message)
    );
}

#[test]
fn enum_and_union() {
    assert_eq!(
        utils_lib::getter::derive(Data::Enum),
        Derived::Failure("It is not possible to derive getter for enums yet.".to_owned())
    );
    assert_eq!(
        utils_lib::getter::derive(Data::Union),
        Derived::Failure("It is not possible to derive getter for unions yet.".to_owned())
    );
}

#[test]
fn unannotated_field_is_skipped() {
    let fields = vec![
        declaration(Some("a"), "usize", vec![Annotation::word("get")]),
        declaration(Some("b"), "char", Vec::new()),
    ];
    let out = utils_lib::getter::derive(Data::Struct(Fields::Named(fields)));
    assert_eq!(
        out,
        Derived::Implementation(vec![FieldOutput::Getters(vec![AccessorCode {
            comment: "Getter on a reference of the field `a` with type [`usize`].".to_owned(),
            declaration: "#[inline]\n#[must_use]\nfn a(&self) -> &usize {\n    &self.a\n}"
                .to_owned(),
        }])])
    );
}

#[test]
fn no_field_is_annotated() {
    let fields = vec![
        declaration(Some("a"), "usize", vec![Annotation::word("doc")]),
        declaration(Some("b"), "char", Vec::new()),
    ];
    assert_eq!(
        utils_lib::getter::derive(Data::Struct(Fields::Named(fields))),
        Derived::Failure("attribute #[get] or #[get_mut] not found".to_owned())
    );
    assert_eq!(
        GetterOption::parse(named("f", "usize", Vec::new())),
        Err(OptionParseError::NotFound)
    );
}

#[test]
fn field_errors_are_collected() {
    let fields = vec![
        declaration(None, "f64", vec![Annotation::word("get")]),
        declaration(None, "()", Vec::new()),
        declaration(
            None,
            "usize",
            vec![Annotation::list("get", "name = \"get\", Const")],
        ),
    ];
    let out = utils_lib::getter::derive(Data::Struct(Fields::Unnamed(fields)));
    assert_eq!(
        out,
        Derived::Implementation(vec![
            FieldOutput::Diagnostic(
                "error parsing option: name = \"#\" is missing and there is no default name for tuple struct"
                    .to_owned()
            ),
            FieldOutput::Getters(vec![AccessorCode {
                comment: "Getter on a reference of the field `2` with type [`usize`]."
                    .to_owned(),
                declaration:
                    "#[inline]\n#[must_use]\nconst fn get(&self) -> &usize {\n    &self.2\n}"
                        .to_owned(),
            }]),
        ])
    );
}

#[test]
fn name_value_attribute_is_refused() {
    let value = AnnotationValue::Str("not valid".to_owned());
    let on_named = named("f", "usize", vec![Annotation::name_value("get", value.clone())]);
    assert_eq!(GetterOption::parse(on_named), Err(OptionParseError::NameValue));
    let on_tuple = unnamed(3, "usize", vec![Annotation::name_value("get_mut", value.clone())]);
    assert_eq!(GetterOption::parse(on_tuple), Err(OptionParseError::NameValue));
    let after_get = named(
        "f",
        "usize",
        vec![Annotation::word("get"), Annotation::name_value("get", value.clone())],
    );
    assert_eq!(GetterOption::parse(after_get), Err(OptionParseError::NameValue));
    assert_eq!(
        OptionParseError::NameValue.message(),
        "field attribute is not supported in name value mode, please refer to the documentation"
    );

    let other = named(
        "f",
        "usize",
        vec![Annotation::name_value("doc", value), Annotation::word("get")],
    );
    assert!(GetterOption::parse(other).is_ok());

    let out = utils_lib::getter::derive(Data::Struct(Fields::Named(vec![declaration(
        Some("f"),
        "usize",
        vec![Annotation::name_text("get", "x")],
    )])));
    assert_eq!(
        out,
        Derived::Implementation(vec![FieldOutput::Diagnostic(
            "error parsing option: field attribute is not supported in name value mode, please refer to the documentation"
                .to_owned()
        )])
    );
}

#[test]
fn parenthesized_word() {
    let field = named(
        "f",
        "usize",
        vec![
            Annotation::list("get", "name = \"field\""),
            Annotation::list("get_mut", "name(field_mut)"),
        ],
    );
    let out = codes(field);
    assert_eq!(
        out[0].declaration,
        "#[inline]\n#[must_use]\nfn field(&self) -> &usize {\n    &self.f\n}"
    );
    assert_eq!(
        out[1].declaration,
        "#[inline]\n#[must_use]\nfn field_mut(&mut self) -> &mut usize {\n    &mut self.f\n}"
    );

    assert_eq!(
        GetterTy::parse_option(&Annotation::list("getter_ty", "Clone")),
        Ok(GetterTy::Clone)
    );
    assert_eq!(
        SelfTy::parse_option(&Annotation::list("Self_type", "value")),
        Ok(SelfTy::Value)
    );
    assert_eq!(
        GetterTy::parse_option(&Annotation::list("Getter_type", "by_value")),
        Ok(GetterTy::Copy)
    );
    assert_eq!(
        GetterTy::parse_option(&Annotation::list("getter_ty", "unknown")),
        Err(ParseAttributeOptionError::Unacceptable(
            UnacceptableParseError::RightHandValueInvalid
        ))
    );
    assert_eq!(
        GetterTy::parse_option(&Annotation::list("other", "Clone")),
        Err(ParseAttributeOptionError::Acceptable(
            AcceptableParseError::LeftHandSideValueNotRecognized
        ))
    );
}

#[test]
fn parenthesized_argument_that_is_no_word() {
    let result = Visibility::parse_option(&Annotation::list("visibility", "not::an::ident"));
    match result {
        Err(ParseAttributeOptionError::Unacceptable(UnacceptableParseError::IdentParseError(
            message,
        ))) => {
            assert_eq!(message, "unexpected token");
        }
        other => panic!("unexpected result {other:?}"),
    }
    let keyword = SelfTy::parse_option(&Annotation::list("self_ty", "ref"));
    assert_eq!(
        keyword,
        Err(ParseAttributeOptionError::Unacceptable(
            UnacceptableParseError::IdentParseError(
                "expected identifier, found keyword `ref`".to_owned()
            )
        ))
    );
    let empty = SelfTy::parse_option(&Annotation::list("self_ty", ""));
    assert!(matches!(
        empty,
        Err(ParseAttributeOptionError::Unacceptable(
            UnacceptableParseError::IdentParseError(_)
        ))
    ));

    let field = named(
        "f4",
        "usize",
        vec![Annotation::list("get_mut", "visibility(not::an::ident)")],
    );
    let error = GetterOption::parse(field).expect_err("malformed");
    assert_eq!(
        error.message(),
        "got error syn ident parse error: unexpected token while parsing option visibility"
    );
}

