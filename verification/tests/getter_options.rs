//! Tests of the options one by one: their spellings, what they emit, and the
//! errors of malformed arguments.

use utils_lib::getter::attribute_option::{
    get_string_literal, parse_from_word, parse_option_utils, ParseOption,
};
use utils_lib::getter::const_ty::ConstTy;
use utils_lib::getter::error::{
    AcceptableParseError, AddConfigError, GetterParseError, OptionParseError,
    OptionValidationError, ParseAttributeOptionError, UnacceptableParseError,
};
use utils_lib::getter::field::{Field, FieldDeclaration, FieldInformation, FieldName};
use utils_lib::getter::getter_option::GetterOption;
use utils_lib::getter::getter_ty::GetterTy;
use utils_lib::getter::name::{is_identifier_text, FunctionName};
use utils_lib::getter::option::{
    AccessorCode, ImmutableGetterOption, MutableGetterOption, ParseGetterOption,
};
use utils_lib::getter::option_enum::{ImmutableOptionList, MutableOptionList, OptionList};
use utils_lib::getter::self_ty::SelfTy;
use utils_lib::getter::syntax::{
    Annotation, AnnotationPath, AnnotationValue, NameValue, TokenList,
};
use utils_lib::getter::visibility::Visibility;
use utils_lib::getter::which_getter::WhichGetter;

fn field_named(ident: &str, ty: &str, attrs: Vec<Annotation>) -> Field {
    Field::new(
        FieldDeclaration {
            attrs,
            ident: Some(ident.to_owned()),
            ty: ty.to_owned(),
        },
        0,
    )
}

fn field_at(index: usize, ty: &str, attrs: Vec<Annotation>) -> Field {
    Field::new(
        FieldDeclaration {
            attrs,
            ident: None,
            ty: ty.to_owned(),
        },
        index,
    )
}

fn getters(field: Field) -> Vec<AccessorCode> {
    GetterOption::parse(field).expect("valid").to_code()
}

#[test]
fn option_set_twice_among_other_arguments() {
    let args = [
        Annotation::name_text("name", "a"),
        Annotation::word("public"),
        Annotation::word("unknown"),
        Annotation::list("name", "b"),
    ];
    assert_eq!(
        MutableGetterOption::parse(&args),
        Err(GetterParseError::FieldAttributeOptionSetMultipleTimes(
            MutableOptionList::IdentOption
        ))
    );
    assert_eq!(
        ImmutableGetterOption::parse(&args),
        Err(GetterParseError::FieldAttributeOptionSetMultipleTimes(
            ImmutableOptionList::MutableOption(MutableOptionList::IdentOption)
        ))
    );
    let args = [
        Annotation::word("copy"),
        Annotation::word("Const"),
        Annotation::name_text("getter_type", "clone"),
    ];
    assert_eq!(
        ImmutableGetterOption::parse(&args),
        Err(GetterParseError::FieldAttributeOptionSetMultipleTimes(
            ImmutableOptionList::GetterTy
        ))
    );
    assert!(MutableGetterOption::parse(&args).is_ok());
}

#[test]
fn unrecognized_arguments_are_skipped() {
    let with = [
        Annotation::word("public"),
        Annotation::word("unknown"),
        Annotation::name_text("other", "x"),
        Annotation::list("more", "a b c"),
    ];
    let without = [Annotation::word("public")];
    assert_eq!(
        ImmutableGetterOption::parse(&with),
        ImmutableGetterOption::parse(&without)
    );
    assert_eq!(
        MutableGetterOption::parse(&with),
        MutableGetterOption::parse(&without)
    );
}

#[test]
fn name_must_be_an_identifier() {
    for text in ["a b", "x() {} fn y", "", "1abc", " x", "x ", "a-b", "a::b", "9"] {
        assert_eq!(
            FunctionName::parse_option(&Annotation::name_text("name", text)),
            Err(ParseAttributeOptionError::Unacceptable(
                UnacceptableParseError::RightHandValueInvalid
            ))
        );
        assert_eq!(FunctionName::from_text(text), None);
        assert!(!is_identifier_text(text));
    }
    for text in ["x", "_", "_x", "x1", "field_mut", "\u{e9}t\u{e9}", "type"] {
        assert_eq!(
            FunctionName::parse_option(&Annotation::name_text("name", text)),
            Ok(FunctionName::new(Some(text.to_owned())))
        );
        assert!(is_identifier_text(text));
    }
    let field = field_named(
        "f",
        "usize",
        vec![Annotation::list("get", "name = \"x() {} fn y\"")],
    );
    assert_eq!(
        GetterOption::parse(field),
        Err(OptionParseError::GetterParseError(
            GetterParseError::AddConfigError(
                UnacceptableParseError::RightHandValueInvalid,
                ImmutableOptionList::MutableOption(MutableOptionList::IdentOption)
            )
        ))
    );
}

#[test]
fn word_between_spaces() {
    assert_eq!(
        FunctionName::parse_option(&Annotation::list("name", " spaced ")),
        Ok(FunctionName::new(Some("spaced".to_owned())))
    );
    assert_eq!(
        parse_option_utils::<GetterTy>(&Annotation::list("getter_ty", "\tcopy\n")),
        Ok(GetterTy::Copy)
    );
}

#[test]
fn word_result_decides() {
    assert_eq!(
        parse_from_word::<GetterTy>(Ok("copy".to_owned())),
        Ok(GetterTy::Copy)
    );
    assert_eq!(
        parse_from_word::<GetterTy>(Ok("nothing".to_owned())),
        Err(ParseAttributeOptionError::Unacceptable(
            UnacceptableParseError::RightHandValueInvalid
        ))
    );
    assert_eq!(
        parse_from_word::<FunctionName>(Ok("nothing".to_owned())),
        Ok(FunctionName::new(Some("nothing".to_owned())))
    );
    assert_eq!(
        parse_from_word::<ConstTy>(Err("message".to_owned())),
        Err(ParseAttributeOptionError::Unacceptable(
            UnacceptableParseError::IdentParseError("message".to_owned())
        ))
    );
}

#[test]
fn argument_list_that_does_not_parse() {
    let field = field_named(
        "f1",
        "usize",
        vec![Annotation::list("get_mut", "this is not valid")],
    );
    assert_eq!(
        GetterOption::parse(field),
        Err(OptionParseError::ExprParseError("expected `,`".to_owned()))
    );
    let unrelated = field_named(
        "f1",
        "usize",
        vec![
            Annotation::list("other", "this is not valid"),
            Annotation::word("get"),
        ],
    );
    assert!(GetterOption::parse(unrelated).is_ok());

    assert_eq!(
        GetterOption::add_list_attribute(
            None,
            &AnnotationPath::from_ident("get"),
            Err("message".to_owned())
        ),
        Err(OptionParseError::ExprParseError("message".to_owned()))
    );
    assert_eq!(
        GetterOption::add_list_attribute(
            None,
            &AnnotationPath::from_ident("get_mut"),
            Ok(vec![Annotation::word("pub")])
        ),
        Ok(Some(WhichGetter::Mutable(
            MutableGetterOption::parse(&[Annotation::word("public")]).expect("valid")
        )))
    );
    assert_eq!(
        GetterOption::add_list_attribute(
            Some(WhichGetter::default()),
            &AnnotationPath::from_ident("get"),
            Ok(vec![Annotation::word("Const"), Annotation::word("Constant")])
        ),
        Err(OptionParseError::GetterParseError(
            GetterParseError::FieldAttributeOptionSetMultipleTimes(ImmutableOptionList::ConstTy)
        ))
    );
}

#[test]
fn arguments_are_parsed_into_their_shapes() {
    let field = field_named(
        "f",
        "String",
        vec![Annotation::list(
            "get",
            "public, name = \"text\", getter_ty(clone), Const = true, extra, a::b, other = 3,",
        )],
    );
    let out = getters(field);
    assert_eq!(
        out[0].declaration,
        "#[inline]\n#[must_use]\npub const fn text(&self) -> String {\n    self.f.clone()\n}"
    );
    assert_eq!(
        out[0].comment,
        "Getter on a cloned value of the field `f` with type [`String`]."
    );
}

#[test]
fn unacceptable_arguments() {
    let not_ident = field_named("f2", "usize", vec![Annotation::list("get", "not::an::ident = 1")]);
    let error = GetterOption::parse(not_ident).expect_err("left side");
    assert_eq!(
        error,
        OptionParseError::GetterParseError(GetterParseError::AddConfigError(
            UnacceptableParseError::LeftHandSideValuePathIsNotIdent,
            ImmutableOptionList::MutableOption(MutableOptionList::Visibility)
        ))
    );
    assert_eq!(
        error.message(),
        "got error the left hand side path in an assignment has multiple section and is therefore not a ident while parsing option visibility"
    );

    let not_ident_list =
        field_named("f3", "usize", vec![Annotation::list("get", "not::an::ident(1)")]);
    assert_eq!(
        GetterOption::parse(not_ident_list),
        Err(OptionParseError::GetterParseError(
            GetterParseError::AddConfigError(
                UnacceptableParseError::LeftHandSideValuePathIsNotIdent,
                ImmutableOptionList::MutableOption(MutableOptionList::Visibility)
            )
        ))
    );

    let not_string = field_named(
        "f5",
        "usize",
        vec![Annotation::list("get", "visibility = not::a::string")],
    );
    let error = GetterOption::parse(not_string).expect_err("right side");
    assert_eq!(
        error.message(),
        "got error the right hand side value is not a literal string when it is expected while parsing option visibility"
    );

    let misformed = field_named(
        "f6",
        "usize",
        vec![Annotation::list("get_mut", "visibility = \"misformed\"")],
    );
    let error = GetterOption::parse(misformed).expect_err("right side");
    assert_eq!(
        error,
        OptionParseError::GetterParseError(GetterParseError::AddConfigError(
            UnacceptableParseError::RightHandValueInvalid,
            ImmutableOptionList::MutableOption(MutableOptionList::Visibility)
        ))
    );
    assert_eq!(
        error.message(),
        "got error right hand value in assignment is misformed or invalid while parsing option visibility"
    );

    let constant =
        field_named("f7", "usize", vec![Annotation::list("get", "Const = \"misformed\"")]);
    assert_eq!(
        GetterOption::parse(constant).expect_err("right side").message(),
        "got error right hand value in assignment is misformed or invalid while parsing option const"
    );
    let self_ty =
        field_named("f8", "usize", vec![Annotation::list("get", "self_ty=not::an::string")]);
    assert_eq!(
        GetterOption::parse(self_ty).expect_err("right side").message(),
        "got error the right hand side value is not a literal string when it is expected while parsing option self type"
    );
    let getter_ty = field_named(
        "f9",
        "usize",
        vec![Annotation::list("get", "getter_ty = not::a::string")],
    );
    assert_eq!(
        GetterOption::parse(getter_ty).expect_err("right side").message(),
        "got error the right hand side value is not a literal string when it is expected while parsing option getter type"
    );
    let name = field_named("f10", "usize", vec![Annotation::list("get", "name = 1")]);
    assert_eq!(
        GetterOption::parse(name).expect_err("right side").message(),
        "got error the right hand side value is not a literal string when it is expected while parsing option name"
    );
    let mutable_only = field_named("f", "usize", vec![Annotation::list("get_mut", "Const")]);
    assert!(GetterOption::parse(mutable_only).is_ok());
}

#[test]
fn one_argument_at_a_time() {
    let mut mutable = MutableGetterOption::default();
    assert_eq!(
        mutable.add_config(&Annotation::word("crate")),
        Ok(MutableOptionList::Visibility)
    );
    assert_eq!(mutable.visibility(), &Visibility::Crate(None));
    assert_eq!(
        mutable.add_config(&Annotation::name_text("name", "n")),
        Ok(MutableOptionList::IdentOption)
    );
    assert_eq!(mutable.name(), &FunctionName::new(Some("n".to_owned())));
    assert_eq!(
        mutable.add_config(&Annotation::word("copy")),
        Err(AddConfigError::Acceptable(
            AcceptableParseError::PathNotRecognized
        ))
    );
    assert_eq!(
        mutable.add_config(&Annotation::name_text("getter_ty", "copy")),
        Err(AddConfigError::Acceptable(
            AcceptableParseError::LeftHandSideValueNotRecognized
        ))
    );
    assert_eq!(
        mutable.add_config(&Annotation::name_text("visibility", "copy")),
        Err(AddConfigError::Unacceptable(
            UnacceptableParseError::RightHandValueInvalid,
            MutableOptionList::Visibility
        ))
    );
    assert_eq!(mutable.visibility(), &Visibility::Crate(None));

    let mut immutable = ImmutableGetterOption::default();
    assert_eq!(
        immutable.add_config(&Annotation::word("private")),
        Ok(ImmutableOptionList::MutableOption(
            MutableOptionList::Visibility
        ))
    );
    assert_eq!(
        immutable.add_config(&Annotation::word("constant")),
        Ok(ImmutableOptionList::ConstTy)
    );
    assert_eq!(immutable.const_ty(), ConstTy::Constant);
    assert_eq!(
        immutable.add_config(&Annotation::name_value("Const", AnnotationValue::Bool(false))),
        Ok(ImmutableOptionList::ConstTy)
    );
    assert_eq!(immutable.const_ty(), ConstTy::NonConstant);
    assert_eq!(
        immutable.add_config(&Annotation::word("by_clone")),
        Ok(ImmutableOptionList::GetterTy)
    );
    assert_eq!(immutable.ty(), GetterTy::Clone);
    assert_eq!(
        immutable.add_config(&Annotation::name_text("self", "move")),
        Ok(ImmutableOptionList::SelfTy)
    );
    assert_eq!(immutable.self_ty(), SelfTy::Value);
    assert_eq!(
        immutable.add_config(&Annotation::word("self")),
        Err(AddConfigError::Acceptable(
            AcceptableParseError::PathNotRecognized
        ))
    );
    assert_eq!(
        immutable.add_config(&Annotation::name_value("self_ty", AnnotationValue::Other)),
        Err(AddConfigError::Unacceptable(
            UnacceptableParseError::RightHandNameValueExprNotLitString,
            ImmutableOptionList::SelfTy
        ))
    );
    assert_eq!(immutable.validate(), Ok(()));
    assert_eq!(MutableGetterOption::default().validate(), Ok(()));
}

#[test]
fn constness_spellings() {
    for word in ["const", "Const", "constant", "Constant"] {
        assert_eq!(
            ConstTy::parse_option(&Annotation::word(word)),
            Ok(ConstTy::Constant)
        );
        assert_eq!(
            ConstTy::parse_option(&Annotation::name_text(word, "true")),
            Ok(ConstTy::Constant)
        );
        assert_eq!(
            ConstTy::parse_option(&Annotation::name_text(word, "false")),
            Ok(ConstTy::NonConstant)
        );
        assert_eq!(
            ConstTy::parse_option(&Annotation::name_value(word, AnnotationValue::Bool(true))),
            Ok(ConstTy::Constant)
        );
    }
    assert_eq!(
        ConstTy::parse_option(&Annotation::word("true")),
        Err(ParseAttributeOptionError::Acceptable(
            AcceptableParseError::PathNotRecognized
        ))
    );
    assert_eq!(
        ConstTy::parse_option(&Annotation::name_text("Const", "constant")),
        Ok(ConstTy::Constant)
    );
    assert_eq!(ConstTy::Constant.quote(), "const ");
    assert_eq!(ConstTy::NonConstant.quote(), "");
    assert_eq!(ConstTy::Constant.to_string(), "constant");
    assert_eq!(ConstTy::NonConstant.to_string(), "non-constant");
    assert_eq!(ConstTy::default(), ConstTy::NonConstant);
}

#[test]
fn getter_type_spellings() {
    for word in ["by_ref", "by ref", "ref"] {
        assert_eq!(GetterTy::parse_string(word), Some(GetterTy::Ref));
    }
    for word in ["by_value", "by_copy", "copy", "Copy"] {
        assert_eq!(GetterTy::parse_string(word), Some(GetterTy::Copy));
    }
    for word in ["by_clone", "clone", "Clone"] {
        assert_eq!(GetterTy::parse_string(word), Some(GetterTy::Clone));
    }
    assert_eq!(GetterTy::parse_string("reference"), None);
    for word in ["getter_ty", "getter_type", "Getter_ty", "Getter_type"] {
        assert!(GetterTy::left_hand_path_accepted_self(word));
    }
    assert!(!GetterTy::left_hand_path_accepted_self("getter"));
    assert_eq!(GetterTy::Ref.prefix_quote(), "&");
    assert_eq!(GetterTy::Copy.prefix_quote(), "");
    assert_eq!(GetterTy::Clone.prefix_quote(), "");
    assert_eq!(GetterTy::Ref.suffix_quote(), "");
    assert_eq!(GetterTy::Copy.suffix_quote(), "");
    assert_eq!(GetterTy::Clone.suffix_quote(), ".clone()");
    assert_eq!(GetterTy::Ref.to_string(), "reference");
    assert_eq!(GetterTy::Copy.to_string(), "copied value");
    assert_eq!(GetterTy::Clone.to_string(), "cloned value");
    assert_eq!(GetterTy::default(), GetterTy::Ref);
}

#[test]
fn self_type_spellings() {
    for left in ["self", "self_ty", "self_type", "Self", "Self_ty", "Self_type"] {
        for right in ["value", "copy", "move"] {
            assert_eq!(
                SelfTy::parse_option(&Annotation::name_text(left, right)),
                Ok(SelfTy::Value)
            );
        }
        assert_eq!(
            SelfTy::parse_option(&Annotation::name_text(left, "ref")),
            Ok(SelfTy::Ref)
        );
        assert_eq!(
            SelfTy::parse_option(&Annotation::name_text(left, "by_ref")),
            Err(ParseAttributeOptionError::Unacceptable(
                UnacceptableParseError::RightHandValueInvalid
            ))
        );
    }
    assert_eq!(SelfTy::Ref.quote(), "&");
    assert_eq!(SelfTy::Value.quote(), "");
    assert_eq!(SelfTy::default(), SelfTy::Ref);
}

#[test]
fn names_of_the_getters() {
    let ident = FieldName::Ident("f".to_owned());
    let index = FieldName::Index(12);
    let unset = FunctionName::default();
    let set = FunctionName::new(Some("x".to_owned()));
    assert_eq!(unset.name(&ident), Some("f"));
    assert_eq!(unset.name(&index), None);
    assert_eq!(set.name(&ident), Some("x"));
    assert_eq!(set.name(&index), Some("x"));
    assert_eq!(unset.name_mut(&ident), Some("f_mut".to_owned()));
    assert_eq!(unset.name_mut(&index), None);
    assert_eq!(set.name_mut(&ident), Some("x".to_owned()));
    assert_eq!(set.name_mut(&index), Some("x".to_owned()));

    assert_eq!(ident.require_ident(), Some("f"));
    assert_eq!(index.require_ident(), None);
    assert_eq!(ident.to_string(), "f");
    assert_eq!(index.to_string(), "12");
    assert_eq!(FieldName::Index(0).to_string(), "0");
    assert_eq!(FieldName::Index(9).to_string(), "9");
    assert_eq!(FieldName::Index(10).to_string(), "10");
    assert_eq!(FieldName::Index(4075).to_string(), "4075");
}

#[test]
fn field_descriptions() {
    let field = field_named("f", "usize", Vec::new());
    assert_eq!(field.index(), 0);
    assert_eq!(field.field().ty, "usize");
    assert_eq!(
        FieldName::from_field_ref(&field),
        FieldName::Ident("f".to_owned())
    );
    assert_eq!(
        FieldName::from_field(field.clone()),
        FieldName::Ident("f".to_owned())
    );
    let information = FieldInformation::from_field(field);
    assert_eq!(information.field_name(), &FieldName::Ident("f".to_owned()));
    assert_eq!(information.ty(), "usize");

    let tuple = field_at(3, "char", Vec::new());
    assert_eq!(FieldName::from_field_ref(&tuple), FieldName::Index(3));
    assert_eq!(FieldName::from_field_part(None, 7), FieldName::Index(7));
    assert_eq!(
        FieldName::from_field_part(Some("a".to_owned()), 7),
        FieldName::Ident("a".to_owned())
    );
}

#[test]
fn paths() {
    let single = AnnotationPath::from_ident("get");
    assert_eq!(single.get_ident(), Some("get"));
    assert!(single.is_ident("get"));
    assert!(!single.is_ident("get_mut"));
    let long = AnnotationPath {
        leading_colon: false,
        segments: vec!["a".to_owned(), "b".to_owned()],
    };
    assert_eq!(long.get_ident(), None);
    assert!(!long.is_ident("a"));
    let rooted = AnnotationPath {
        leading_colon: true,
        segments: vec!["get".to_owned()],
    };
    assert_eq!(rooted.get_ident(), None);
    assert!(GetterOption::is_valid_path_attribute(&single));
    assert!(GetterOption::is_immutable_path(&single));
    assert!(!GetterOption::is_mutable_path(&single));
    assert!(GetterOption::is_valid_path_attribute(
        &AnnotationPath::from_ident("get_mut")
    ));
    assert!(!GetterOption::is_valid_path_attribute(&rooted));
    assert!(!GetterOption::is_valid_path_attribute(&long));

    let rooted_get = field_named("f", "u8", vec![Annotation::Path(rooted)]);
    assert_eq!(
        GetterOption::parse(rooted_get),
        Err(OptionParseError::NotFound)
    );

    assert_eq!(
        Annotation::word("a").path(),
        &AnnotationPath::from_ident("a")
    );
    assert_eq!(
        Annotation::list("b", "c"),
        Annotation::List(TokenList {
            path: AnnotationPath::from_ident("b"),
            tokens: "c".to_owned()
        })
    );
    assert_eq!(
        Annotation::name_text("b", "c"),
        Annotation::NameValue(NameValue {
            path: AnnotationPath::from_ident("b"),
            value: AnnotationValue::Str("c".to_owned())
        })
    );
    assert_eq!(
        get_string_literal(&AnnotationValue::Str("c".to_owned())),
        Some("c".to_owned())
    );
    assert_eq!(get_string_literal(&AnnotationValue::Bool(true)), None);
    assert_eq!(get_string_literal(&AnnotationValue::Other), None);
}

#[test]
fn names_of_the_options() {
    assert_eq!(MutableOptionList::Visibility.name(), "visibility");
    assert_eq!(MutableOptionList::IdentOption.name(), "name");
    assert_eq!(
        ImmutableOptionList::MutableOption(MutableOptionList::IdentOption).name(),
        "name"
    );
    assert_eq!(ImmutableOptionList::ConstTy.name(), "const");
    assert_eq!(ImmutableOptionList::GetterTy.name(), "getter type");
    assert_eq!(ImmutableOptionList::SelfTy.name(), "self type");
    assert_eq!(
        ImmutableOptionList::from(MutableOptionList::Visibility),
        ImmutableOptionList::MutableOption(MutableOptionList::Visibility)
    );
    assert!(ImmutableOptionList::ConstTy.same(&ImmutableOptionList::ConstTy));
    assert!(!ImmutableOptionList::ConstTy.same(&ImmutableOptionList::SelfTy));
}

#[test]
fn messages_of_the_errors() {
    assert_eq!(
        AcceptableParseError::PathNotRecognized.message(),
        "there is no assignment and the path is not recognized for this option"
    );
    assert_eq!(
        AcceptableParseError::LeftHandSideValueNotRecognized.message(),
        "left hand side value in assignment is not recognized for this option"
    );
    assert_eq!(
        UnacceptableParseError::IdentParseError("m".to_owned()).message(),
        "syn ident parse error: m"
    );
    assert_eq!(
        ParseAttributeOptionError::Acceptable(AcceptableParseError::PathNotRecognized).message(),
        "there is no assignment and the path is not recognized for this option"
    );
    assert_eq!(
        ParseAttributeOptionError::Unacceptable(UnacceptableParseError::RightHandValueInvalid)
            .message(),
        "right hand value in assignment is misformed or invalid"
    );
    assert_eq!(
        AddConfigError::<MutableOptionList>::Acceptable(AcceptableParseError::PathNotRecognized)
            .message(),
        "there is no assignment and the path is not recognized for this option"
    );
    assert_eq!(
        AddConfigError::Unacceptable(
            UnacceptableParseError::RightHandValueInvalid,
            ImmutableOptionList::SelfTy
        )
        .message(),
        "got error right hand value in assignment is misformed or invalid while parsing option self type"
    );
    assert_eq!(
        GetterParseError::FieldAttributeOptionSetMultipleTimes(MutableOptionList::Visibility)
            .widen(),
        GetterParseError::FieldAttributeOptionSetMultipleTimes(
            ImmutableOptionList::MutableOption(MutableOptionList::Visibility)
        )
    );
    assert_eq!(
        OptionValidationError::FunctionNameMissing.message(),
        "name = \"#\" is missing and there is no default name for tuple struct"
    );
    assert_eq!(
        OptionValidationError::SelfMoveOnReturnRef.message(),
        "self_ty is value but getter_ty is reference which is not valid, it create a dandling reference which the borrow checker reject"
    );
    assert_eq!(
        OptionParseError::NotFound.message(),
        "attribute #[get] or #[get_mut] not found"
    );
    assert_eq!(
        OptionParseError::ExprParseError("text".to_owned()).message(),
        "text"
    );
    assert_eq!(
        OptionParseError::OptionValidationError(OptionValidationError::FunctionNameMissing)
            .message(),
        "name = \"#\" is missing and there is no default name for tuple struct"
    );
}

#[test]
fn restricted_visibility_is_emitted() {
    let field = field_named(
        "f",
        "usize",
        vec![
            Annotation::list("get", "visibility = \"pub(super)\""),
            Annotation::list("get_mut", "crate"),
        ],
    );
    let out = getters(field);
    assert_eq!(
        out[0].declaration,
        "#[inline]\n#[must_use]\npub(super) fn f(&self) -> &usize {\n    &self.f\n}"
    );
    assert_eq!(
        out[1].declaration,
        "#[inline]\n#[must_use]\npub(crate) fn f_mut(&mut self) -> &mut usize {\n    &mut self.f\n}"
    );
}
