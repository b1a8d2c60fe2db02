use gluegun_idl::ast::{
    AstAttr, AstEnum, AstField, AstFieldsStyle, AstFn, AstGenArg, AstImpl, AstImplMember, AstInput,
    AstItem, AstReceiver, AstSeg, AstSig, AstStruct, AstTy, AstTyKind, AstVariant, SourceFile,
    Visibility,
};
use gluegun_idl::error::Error;
use gluegun_idl::ir_items::{
    Field, Function, FunctionInput, FunctionOutput, Idl, IsAsync, Item, Method, MethodCategory,
    Name, QualifiedName, Record, Resource, SelfKind, Signature, Variant, VariantArm,
};
use gluegun_idl::ir_types::{
    ErrorRepr, RefKind, Scalar, StringRepr, Ty, TupleRepr, TypeKind,
};
use gluegun_idl::ordered_map::QnameMap;
use gluegun_idl::parse::{extract_idl, Parser};
use gluegun_idl::span::{ErrorLocation, Span};
use gluegun_idl::parse::extract_crate_name;
use gluegun_idl::samples::{greet, Character, Class, Greetings};
use gluegun_idl::codegen::{with_separator, CodeWriter};

fn sp() -> Span {
    Span {
        path: String::from("lib.rs"),
        start: ErrorLocation { byte: 0, line: 1, column: 1 },
        end: ErrorLocation { byte: 0, line: 1, column: 1 },
    }
}

fn nm(s: &str) -> Name {
    Name::from_text(s)
}

fn qn(parts: &[&str]) -> QualifiedName {
    QualifiedName::new(parts.iter().map(|p| nm(p)).collect())
}

fn seg(s: &str) -> AstSeg {
    AstSeg { ident: s.to_string(), span: sp(), parenthesized: false, args: Vec::new() }
}

fn seg_with(s: &str, args: Vec<AstGenArg>) -> AstSeg {
    AstSeg { ident: s.to_string(), span: sp(), parenthesized: false, args }
}

fn ty_path(parts: &[&str]) -> AstTy {
    AstTy {
        span: sp(),
        kind: Box::new(AstTyKind::Path {
            qself: false,
            segments: parts.iter().map(|p| seg(p)).collect(),
        }),
    }
}

fn ty_path_args(part: &str, args: Vec<AstGenArg>) -> AstTy {
    AstTy {
        span: sp(),
        kind: Box::new(AstTyKind::Path { qself: false, segments: vec![seg_with(part, args)] }),
    }
}

fn ty_ref(elem: AstTy) -> AstTy {
    AstTy {
        span: sp(),
        kind: Box::new(AstTyKind::Reference { mutable: false, named_lifetime: false, elem }),
    }
}

fn field(name: &str, vis: Visibility, ty: AstTy) -> AstField {
    AstField { span: sp(), name: Some(name.to_string()), vis, ty }
}

fn sig(name: &str, receiver: Option<AstReceiver>, inputs: Vec<AstInput>, output: Option<AstTy>) -> AstSig {
    AstSig {
        name: name.to_string(),
        name_span: sp(),
        generics: 0,
        generics_span: sp(),
        is_async: false,
        receiver,
        inputs,
        output,
        output_span: sp(),
    }
}

fn input(name: &str, ty: AstTy) -> AstInput {
    AstInput { span: sp(), name: Some(name.to_string()), ty }
}

fn recv_ref() -> Option<AstReceiver> {
    Some(AstReceiver { reference: true, mutable: false, colon: false, colon_span: sp() })
}

fn recv_ref_mut() -> Option<AstReceiver> {
    Some(AstReceiver { reference: true, mutable: true, colon: false, colon_span: sp() })
}

fn impl_fn(s: AstSig) -> AstImplMember {
    AstImplMember::Fn { span: sp(), vis: Visibility::Public, attrs: Vec::new(), sig: s }
}

fn inherent_impl(name: &str, members: Vec<AstImplMember>) -> AstItem {
    AstItem::Impl(AstImpl {
        span: sp(),
        generics: 0,
        generics_span: sp(),
        is_trait_impl: false,
        self_ty_name: Some(name.to_string()),
        members,
    })
}

fn pub_struct(name: &str, fields: Vec<AstField>) -> AstItem {
    AstItem::Struct(AstStruct {
        span: sp(),
        name: name.to_string(),
        name_span: sp(),
        vis: Visibility::Public,
        attrs: Vec::new(),
        generics: 0,
        generics_span: sp(),
        fields,
    })
}

fn unit_variant(name: &str) -> AstVariant {
    AstVariant {
        span: sp(),
        name: name.to_string(),
        attrs: Vec::new(),
        style: AstFieldsStyle::Unit,
        fields: Vec::new(),
    }
}

fn pub_enum(name: &str, variants: Vec<AstVariant>) -> AstItem {
    AstItem::Enum(AstEnum {
        span: sp(),
        name: name.to_string(),
        name_span: sp(),
        vis: Visibility::Public,
        attrs: Vec::new(),
        generics: 0,
        generics_span: sp(),
        variants,
    })
}

fn pub_fn(s: AstSig) -> AstItem {
    AstItem::Fn(AstFn { span: sp(), vis: Visibility::Public, attrs: Vec::new(), sig: s })
}

fn t_string() -> Ty {
    Ty { span: sp(), kind: Box::new(TypeKind::String { repr: StringRepr::String }) }
}

fn t_str_ref() -> Ty {
    Ty { span: sp(), kind: Box::new(TypeKind::String { repr: StringRepr::StrRef }) }
}

fn t_scalar(s: Scalar) -> Ty {
    Ty { span: sp(), kind: Box::new(TypeKind::Scalar(s)) }
}

fn t_unit() -> Ty {
    Ty {
        span: sp(),
        kind: Box::new(TypeKind::Tuple { elements: Vec::new(), repr: TupleRepr::Tuple(0) }),
    }
}

fn t_user(parts: &[&str]) -> Ty {
    Ty { span: sp(), kind: Box::new(TypeKind::UserType { qname: qn(parts) }) }
}

fn method(category: MethodCategory, name: &str, inputs: Vec<FunctionInput>, main_ty: Ty, error_ty: Option<Ty>) -> Method {
    Method {
        span: sp(),
        category,
        name: nm(name),
        signature: Signature {
            is_async: IsAsync::No,
            inputs,
            output_ty: FunctionOutput { main_ty, error_ty },
        },
    }
}

fn fn_input(name: &str, ty: Ty) -> FunctionInput {
    FunctionInput { span: sp(), name: nm(name), ty }
}

fn idl_of(crate_name: &str, entries: Vec<(QualifiedName, Item)>) -> Idl {
    Idl { crate_name: nm(crate_name), definitions: QnameMap { entries } }
}

/// The character sample: a resource with private fields and five methods,
/// plus a plain enumeration, extracted end to end.
#[test]
fn idl_tests() {
    let character_struct = AstItem::Struct(AstStruct {
        span: sp(),
        name: "Character".to_string(),
        name_span: sp(),
        vis: Visibility::Public,
        attrs: Vec::new(),
        generics: 0,
        generics_span: sp(),
        fields: vec![
            field("name", Visibility::Inherited, ty_path(&["String"])),
            field("class", Visibility::Inherited, ty_path(&["Class"])),
            field("level", Visibility::Inherited, ty_path(&["u32"])),
        ],
    });
    let character_impl = inherent_impl(
        "Character",
        vec![
            impl_fn(sig(
                "new",
                None,
                vec![input("name", ty_ref(ty_path(&["str"]))), input("class", ty_path(&["Class"]))],
                Some(ty_path(&["Self"])),
            )),
            impl_fn(sig("class", recv_ref(), vec![], Some(ty_path(&["Class"])))),
            impl_fn(sig("name", recv_ref(), vec![], Some(ty_ref(ty_path(&["str"]))))),
            impl_fn(sig("level_up", recv_ref_mut(), vec![], None)),
            impl_fn(sig("level", recv_ref(), vec![], Some(ty_path(&["u32"])))),
        ],
    );
    let class_enum = AstItem::Enum(AstEnum {
        span: sp(),
        name: "Class".to_string(),
        name_span: sp(),
        vis: Visibility::Public,
        attrs: vec![AstAttr { ident: Some("derive".to_string()) }],
        generics: 0,
        generics_span: sp(),
        variants: vec![
            unit_variant("Fighter"),
            unit_variant("Wizard"),
            unit_variant("Rogue"),
            unit_variant("Cleric"),
        ],
    });
    let file = SourceFile { items: vec![character_struct, character_impl, class_enum] };

    let idl = extract_idl(nm("character"), &file).expect("extraction succeeds");

    let expected = idl_of(
        "character",
        vec![
            (
                qn(&["character", "Character"]),
                Item::Resource(Resource {
                    span: sp(),
                    name: nm("Character"),
                    methods: vec![
                        method(
                            MethodCategory::Constructor,
                            "new",
                            vec![
                                fn_input("name", t_str_ref()),
                                fn_input("class", t_user(&["character", "Class"])),
                            ],
                            t_user(&["character", "Character"]),
                            None,
                        ),
                        method(
                            MethodCategory::InstanceMethod(SelfKind::ByRef),
                            "class",
                            vec![],
                            t_user(&["character", "Class"]),
                            None,
                        ),
                        method(
                            MethodCategory::InstanceMethod(SelfKind::ByRef),
                            "name",
                            vec![],
                            t_str_ref(),
                            None,
                        ),
                        method(
                            MethodCategory::InstanceMethod(SelfKind::ByRefMut),
                            "level_up",
                            vec![],
                            t_unit(),
                            None,
                        ),
                        method(
                            MethodCategory::InstanceMethod(SelfKind::ByRef),
                            "level",
                            vec![],
                            t_scalar(Scalar::U32),
                            None,
                        ),
                    ],
                }),
            ),
            (
                qn(&["character", "Class"]),
                Item::Enum(gluegun_idl::ir_items::Enum {
                    span: sp(),
                    name: nm("Class"),
                    arms: vec![
                        gluegun_idl::ir_items::EnumArm { span: sp(), name: nm("Fighter") },
                        gluegun_idl::ir_items::EnumArm { span: sp(), name: nm("Wizard") },
                        gluegun_idl::ir_items::EnumArm { span: sp(), name: nm("Rogue") },
                        gluegun_idl::ir_items::EnumArm { span: sp(), name: nm("Cleric") },
                    ],
                    methods: vec![],
                }),
            ),
        ],
    );
    assert_eq!(idl, expected);
}

/// A struct with two public fields and an inherent impl with a constructor
/// and a borrowed-string getter becomes a record with two fields, a
/// constructor and an instance method returning a borrowed string.
#[test]
fn record_with_constructor_and_getter() {
    let file = SourceFile {
        items: vec![
            pub_struct(
                "Person",
                vec![
                    field("name", Visibility::Public, ty_path(&["String"])),
                    field("level", Visibility::Public, ty_path(&["u32"])),
                ],
            ),
            inherent_impl(
                "Person",
                vec![
                    impl_fn(sig(
                        "new",
                        None,
                        vec![
                            input("name", ty_ref(ty_path(&["str"]))),
                            input("level", ty_path(&["u32"])),
                        ],
                        Some(ty_path(&["Self"])),
                    )),
                    impl_fn(sig("name", recv_ref(), vec![], Some(ty_ref(ty_path(&["str"]))))),
                ],
            ),
        ],
    };
    let idl = extract_idl(nm("demo"), &file).expect("extraction succeeds");
    assert_eq!(idl.definitions.entries.len(), 1);
    let (k, item) = &idl.definitions.entries[0];
    assert_eq!(*k, qn(&["demo", "Person"]));
    match item {
        Item::Record(r) => {
            assert_eq!(r.fields.len(), 2);
            assert_eq!(r.fields[0], Field { span: sp(), name: nm("name"), ty: t_string() });
            assert_eq!(r.fields[1], Field { span: sp(), name: nm("level"), ty: t_scalar(Scalar::U32) });
            assert_eq!(r.methods.len(), 2);
            assert_eq!(r.methods[0].category, MethodCategory::Constructor);
            assert_eq!(r.methods[1].category, MethodCategory::InstanceMethod(SelfKind::ByRef));
            assert_eq!(r.methods[1].signature.output_ty.main_ty, t_str_ref());
        }
        other => panic!("expected a record, got {:?}", other),
    }
}

/// A struct with only private fields becomes a resource with its methods.
#[test]
fn resource_with_constructor_and_method() {
    let file = SourceFile {
        items: vec![
            pub_struct("Counter", vec![field("value", Visibility::Inherited, ty_path(&["i32"]))]),
            inherent_impl(
                "Counter",
                vec![
                    impl_fn(sig("new", None, vec![], Some(ty_path(&["Self"])))),
                    impl_fn(sig("value", recv_ref(), vec![], Some(ty_path(&["i32"])))),
                ],
            ),
        ],
    };
    let idl = extract_idl(nm("demo"), &file).expect("extraction succeeds");
    match &idl.definitions.entries[0].1 {
        Item::Resource(r) => {
            assert_eq!(r.methods.len(), 2);
            assert_eq!(r.methods[0].category, MethodCategory::Constructor);
            assert_eq!(r.methods[1].category, MethodCategory::InstanceMethod(SelfKind::ByRef));
        }
        other => panic!("expected a resource, got {:?}", other),
    }
}

/// An enum whose arms carry fields becomes a variant; positional fields are
/// named after their indices.
#[test]
fn variant_with_positional_fields() {
    let mk_arm = |name: &str| AstVariant {
        span: sp(),
        name: name.to_string(),
        attrs: Vec::new(),
        style: AstFieldsStyle::Unnamed,
        fields: vec![AstField {
            span: sp(),
            name: None,
            vis: Visibility::Inherited,
            ty: ty_path(&["String"]),
        }],
    };
    let file = SourceFile { items: vec![pub_enum("Outcome", vec![mk_arm("Ok"), mk_arm("Err")])] };
    let idl = extract_idl(nm("demo"), &file).expect("extraction succeeds");
    match &idl.definitions.entries[0].1 {
        Item::Variant(v) => {
            assert_eq!(
                v.arms,
                vec![
                    VariantArm {
                        span: sp(),
                        name: nm("Ok"),
                        fields: vec![Field { span: sp(), name: nm("f0"), ty: t_string() }],
                    },
                    VariantArm {
                        span: sp(),
                        name: nm("Err"),
                        fields: vec![Field { span: sp(), name: nm("f0"), ty: t_string() }],
                    },
                ],
            );
        }
        other => panic!("expected a variant, got {:?}", other),
    }
}

/// An enum with only unit arms becomes a plain enumeration.
#[test]
fn plain_enumeration() {
    let file = SourceFile {
        items: vec![pub_enum(
            "Color",
            vec![unit_variant("Red"), unit_variant("Green"), unit_variant("Blue")],
        )],
    };
    let idl = extract_idl(nm("demo"), &file).expect("extraction succeeds");
    match &idl.definitions.entries[0].1 {
        Item::Enum(e) => {
            assert_eq!(e.arms.len(), 3);
            assert_eq!(e.arms[0].name, nm("Red"));
            assert_eq!(e.arms[1].name, nm("Green"));
            assert_eq!(e.arms[2].name, nm("Blue"));
            assert_eq!(e.methods.len(), 0);
        }
        other => panic!("expected an enumeration, got {:?}", other),
    }
}

/// A function returning the one-argument catch-all result convention gets
/// the opaque error type.
#[test]
fn function_with_catch_all_result() {
    let ret = AstTy {
        span: sp(),
        kind: Box::new(AstTyKind::Path {
            qself: false,
            segments: vec![seg("anyhow"), seg_with("Result", vec![AstGenArg::Ty(ty_path(&["String"]))])],
        }),
    };
    let file = SourceFile {
        items: vec![pub_fn(sig(
            "greet",
            None,
            vec![input("name", ty_ref(ty_path(&["str"])))],
            Some(ret),
        ))],
    };
    let idl = extract_idl(nm("demo"), &file).expect("extraction succeeds");
    let expected = idl_of(
        "demo",
        vec![(
            qn(&["demo", "greet"]),
            Item::Function(Function {
                span: sp(),
                name: nm("greet"),
                signature: Signature {
                    is_async: IsAsync::No,
                    inputs: vec![fn_input("name", t_str_ref())],
                    output_ty: FunctionOutput {
                        main_ty: t_string(),
                        error_ty: Some(Ty {
                            span: sp(),
                            kind: Box::new(TypeKind::Error { repr: ErrorRepr::AnyhowError }),
                        }),
                    },
                },
            }),
        )],
    );
    assert_eq!(idl, expected);
}

/// A struct mixing public and private fields fails before any type is
/// resolved.
#[test]
fn mixed_visibility_fails() {
    let file = SourceFile {
        items: vec![pub_struct(
            "Broken",
            vec![
                field("shown", Visibility::Public, ty_path(&["u32"])),
                field("hidden", Visibility::Inherited, ty_path(&["NoSuchType"])),
            ],
        )],
    };
    match extract_idl(nm("demo"), &file) {
        Err(Error::MixedPublicPrivateFields(_)) => {}
        other => panic!("expected the mixed-visibility condition, got {:?}", other),
    }
}

/// Non-public declarations and declarations under conditional compilation
/// contribute nothing.
#[test]
fn visibility_filter_drops_declarations() {
    let private_struct = AstItem::Struct(AstStruct {
        span: sp(),
        name: "Hidden".to_string(),
        name_span: sp(),
        vis: Visibility::Inherited,
        attrs: Vec::new(),
        generics: 0,
        generics_span: sp(),
        fields: vec![],
    });
    let cfg_struct = AstItem::Struct(AstStruct {
        span: sp(),
        name: "Conditional".to_string(),
        name_span: sp(),
        vis: Visibility::Public,
        attrs: vec![AstAttr { ident: Some("cfg".to_string()) }],
        generics: 0,
        generics_span: sp(),
        fields: vec![],
    });
    let ignored_struct = AstItem::Struct(AstStruct {
        span: sp(),
        name: "Marked".to_string(),
        name_span: sp(),
        vis: Visibility::Public,
        attrs: vec![AstAttr { ident: Some("ignore".to_string()) }],
        generics: 0,
        generics_span: sp(),
        fields: vec![],
    });
    let file = SourceFile { items: vec![private_struct, cfg_struct, ignored_struct] };
    let idl = extract_idl(nm("demo"), &file).expect("extraction succeeds");
    assert_eq!(idl.definitions.entries.len(), 0);
}

/// Generic parameters are rejected wherever they stand.
#[test]
fn generics_rejected() {
    let file = SourceFile {
        items: vec![AstItem::Struct(AstStruct {
            span: sp(),
            name: "Wrapper".to_string(),
            name_span: sp(),
            vis: Visibility::Public,
            attrs: Vec::new(),
            generics: 1,
            generics_span: sp(),
            fields: vec![],
        })],
    };
    match extract_idl(nm("demo"), &file) {
        Err(Error::GenericsNotPermitted(_)) => {}
        other => panic!("expected the generics condition, got {:?}", other),
    }
}

/// A nested module is an unsupported item unless ignored.
#[test]
fn nested_module_rejected() {
    let file = SourceFile {
        items: vec![AstItem::Mod { span: sp(), vis: Visibility::Public, attrs: Vec::new() }],
    };
    match extract_idl(nm("demo"), &file) {
        Err(Error::UnsupportedItem(_)) => {}
        other => panic!("expected the unsupported-item condition, got {:?}", other),
    }
}

/// A name that resolves to nothing public fails elaboration.
#[test]
fn unresolved_name_fails() {
    let file = SourceFile {
        items: vec![pub_fn(sig("go", None, vec![input("x", ty_path(&["Mystery"]))], None))],
    };
    match extract_idl(nm("demo"), &file) {
        Err(Error::UnresolvedName(_)) => {}
        other => panic!("expected the unresolved-name condition, got {:?}", other),
    }
}

/// A free function used where a type is expected fails with the not-a-type
/// condition.
#[test]
fn function_as_type_fails() {
    let file = SourceFile {
        items: vec![
            pub_fn(sig("helper", None, vec![], None)),
            pub_fn(sig("go", None, vec![input("x", ty_path(&["helper"]))], None)),
        ],
    };
    match extract_idl(nm("demo"), &file) {
        Err(Error::NotType(_)) => {}
        other => panic!("expected the not-a-type condition, got {:?}", other),
    }
}

/// A two-level reference always fails elaboration: over a user type the
/// wrapper check rejects it, and over a borrowed string the table entry's
/// expected-wrapper check rejects it.
#[test]
fn double_reference_fails() {
    let file = SourceFile {
        items: vec![
            pub_struct("Point", vec![field("x", Visibility::Public, ty_path(&["u32"]))]),
            pub_fn(sig(
                "go",
                None,
                vec![input("p", ty_ref(ty_ref(ty_path(&["Point"]))))],
                None,
            )),
        ],
    };
    match extract_idl(nm("demo"), &file) {
        Err(Error::UnsupportedType(_)) => {}
        other => panic!("expected the unsupported-type condition, got {:?}", other),
    }
    let file2 = SourceFile {
        items: vec![pub_fn(sig(
            "go",
            None,
            vec![input("x", ty_ref(ty_ref(ty_path(&["str"]))))],
            None,
        ))],
    };
    match extract_idl(nm("demo"), &file2) {
        Err(Error::UnsupportedUseOfType(_)) => {}
        other => panic!("expected the unsupported-use condition, got {:?}", other),
    }
}

/// An explicitly typed `self` receiver is rejected.
#[test]
fn explicit_self_rejected() {
    let file = SourceFile {
        items: vec![
            pub_struct("Thing", vec![field("x", Visibility::Public, ty_path(&["u32"]))]),
            inherent_impl(
                "Thing",
                vec![impl_fn(sig(
                    "odd",
                    Some(AstReceiver { reference: false, mutable: false, colon: true, colon_span: sp() }),
                    vec![],
                    None,
                ))],
            ),
        ],
    };
    match extract_idl(nm("demo"), &file) {
        Err(Error::ExplicitSelfNotSupported(_)) => {}
        other => panic!("expected the explicit-self condition, got {:?}", other),
    }
}

/// A destructuring input pattern is rejected.
#[test]
fn destructuring_pattern_rejected() {
    let file = SourceFile {
        items: vec![pub_fn(AstSig {
            name: "go".to_string(),
            name_span: sp(),
            generics: 0,
            generics_span: sp(),
            is_async: false,
            receiver: None,
            inputs: vec![AstInput { span: sp(), name: None, ty: ty_path(&["u32"]) }],
            output: None,
            output_span: sp(),
        })],
    };
    match extract_idl(nm("demo"), &file) {
        Err(Error::UnsupportedInputPattern(_)) => {}
        other => panic!("expected the input-pattern condition, got {:?}", other),
    }
}

/// A recognized path applied to the wrong number of arguments is an error,
/// not a silent non-match.
#[test]
fn wrong_arity_on_known_type() {
    let file = SourceFile {
        items: vec![pub_fn(sig(
            "go",
            None,
            vec![input("x", ty_path_args("Vec", vec![
                AstGenArg::Ty(ty_path(&["u32"])),
                AstGenArg::Ty(ty_path(&["u32"])),
            ]))],
            None,
        ))],
    };
    match extract_idl(nm("demo"), &file) {
        Err(Error::UnsupportedUseOfType(_)) => {}
        other => panic!("expected the unsupported-use condition, got {:?}", other),
    }
}

/// The builder-method asymmetry: a by-value receiver returning the owning
/// type is a builder; a by-reference receiver never is.
#[test]
fn builder_method_categorization() {
    let file = SourceFile {
        items: vec![
            pub_struct("Greeter", vec![field("language", Visibility::Inherited, ty_path(&["String"]))]),
            inherent_impl(
                "Greeter",
                vec![
                    impl_fn(sig(
                        "language",
                        Some(AstReceiver { reference: false, mutable: false, colon: false, colon_span: sp() }),
                        vec![input("language", ty_ref(ty_path(&["str"])))],
                        Some(ty_path(&["Self"])),
                    )),
                    impl_fn(sig("touch", recv_ref(), vec![], Some(ty_path(&["Self"])))),
                ],
            ),
        ],
    };
    let idl = extract_idl(nm("demo"), &file).expect("extraction succeeds");
    match &idl.definitions.entries[0].1 {
        Item::Resource(r) => {
            assert_eq!(r.methods[0].category, MethodCategory::BuilderMethod(SelfKind::ByValue));
            assert_eq!(r.methods[1].category, MethodCategory::InstanceMethod(SelfKind::ByRef));
        }
        other => panic!("expected a resource, got {:?}", other),
    }
}

/// Identifier case conversion goes through the conversion library.
#[test]
fn camel_case_conversions() {
    assert_eq!(nm("hello_world").camel_case().text, "helloWorld");
    assert_eq!(nm("hello_world").upper_camel_case().text, "HelloWorld");
    let q = qn(&["my_crate", "some_type"]).upper_camel_case();
    assert_eq!(q.names[0].text, "MyCrate");
    assert_eq!(q.names[1].text, "SomeType");
}

/// Qualified names join and split as paths.
#[test]
fn qualified_name_operations() {
    let q = qn(&["a", "b", "c"]);
    assert_eq!(q.dotted(), "a.b.c");
    assert_eq!(q.to_string("::"), "a::b::c");
    assert_eq!(q.tail_name(), nm("c"));
    assert_eq!(q.module_name(), qn(&["a", "b"]));
    assert_eq!(q.just_crate(), qn(&["a"]));
    let (m, t) = q.split_module_name();
    assert_eq!(m, qn(&["a", "b"]));
    assert_eq!(t, nm("c"));
    assert_eq!(qn(&["a"]).join(&nm("b")), qn(&["a", "b"]));
    let mut ctx = QualifiedName::empty();
    ctx.set_to_module_of(&q);
    assert_eq!(ctx, qn(&["a", "b"]));
}

/// Definitions come out in strictly increasing qualified-name order, whatever
/// the declaration order was.
#[test]
fn definitions_are_ordered() {
    let file = SourceFile {
        items: vec![
            pub_struct("Zebra", vec![field("x", Visibility::Public, ty_path(&["u32"]))]),
            pub_struct("Aardvark", vec![field("x", Visibility::Public, ty_path(&["u32"]))]),
            pub_fn(sig("middle", None, vec![], None)),
        ],
    };
    let idl = extract_idl(nm("demo"), &file).expect("extraction succeeds");
    let keys: Vec<String> = idl.definitions.entries.iter().map(|e| e.0.dotted()).collect();
    assert_eq!(keys, vec!["demo.Aardvark", "demo.Zebra", "demo.middle"]);
}

/// The same source elaborates to the same artifact, run after run.
#[test]
fn extraction_is_deterministic() {
    let build = || SourceFile {
        items: vec![
            pub_struct("Point", vec![
                field("x", Visibility::Public, ty_path(&["i64"])),
                field("y", Visibility::Public, ty_path(&["i64"])),
            ]),
        ],
    };
    let a = extract_idl(nm("demo"), &build()).expect("extraction succeeds");
    let b = extract_idl(nm("demo"), &build()).expect("extraction succeeds");
    assert_eq!(a, b);
}

/// `impl ToString` in an input position is the stringifiable string shape.
#[test]
fn impl_to_string_input() {
    let bound_ty = AstTy {
        span: sp(),
        kind: Box::new(AstTyKind::ImplTrait {
            bounds: vec![gluegun_idl::ast::AstBound::Trait { segments: vec![seg("ToString")], span: sp() }],
        }),
    };
    let file = SourceFile {
        items: vec![pub_fn(sig("shout", None, vec![input("what", bound_ty)], None))],
    };
    let idl = extract_idl(nm("demo"), &file).expect("extraction succeeds");
    match &idl.definitions.entries[0].1 {
        Item::Function(f) => {
            assert_eq!(
                f.signature.inputs[0].ty,
                Ty { span: sp(), kind: Box::new(TypeKind::String { repr: StringRepr::ImplToString }) },
            );
        }
        other => panic!("expected a function, got {:?}", other),
    }
}

/// `impl AsRef<str>` is a reference wrapper around the borrowed string shape.
#[test]
fn impl_as_ref_input() {
    let bound_ty = AstTy {
        span: sp(),
        kind: Box::new(AstTyKind::ImplTrait {
            bounds: vec![gluegun_idl::ast::AstBound::Trait {
                segments: vec![seg_with("AsRef", vec![AstGenArg::Ty(ty_path(&["str"]))])],
                span: sp(),
            }],
        }),
    };
    let file = SourceFile {
        items: vec![pub_fn(sig("greet", None, vec![input("name", bound_ty)], None))],
    };
    let idl = extract_idl(nm("demo"), &file).expect("extraction succeeds");
    match &idl.definitions.entries[0].1 {
        Item::Function(f) => {
            assert_eq!(f.signature.inputs[0].ty, t_str_ref());
        }
        other => panic!("expected a function, got {:?}", other),
    }
}

/// The error descriptions are fixed per condition.
#[test]
fn error_messages() {
    let e = Error::UnresolvedName(sp());
    assert_eq!(e.message(), "cannot resolve name (it must be public)");
    assert!(e.span().is_some());
    let io = Error::Io("gone".to_string());
    assert!(io.span().is_none());
}

/// RefKind and scalar spellings are stable.
#[test]
fn scalar_spellings() {
    assert_eq!(Scalar::Boolean.as_str(), "bool");
    assert_eq!(Scalar::U32.as_str(), "u32");
    assert_eq!(Scalar::F64.as_str(), "f64");
    let _ = RefKind::AnonRef;
}

/// A fresh parser extracts like the free driver.
#[test]
fn parser_entry_point() {
    let file = SourceFile {
        items: vec![pub_fn(sig("noop", None, vec![], None))],
    };
    let mut parser = Parser::new();
    let a = parser.parse_crate_named(nm("demo"), &file).expect("extraction succeeds");
    let b = extract_idl(nm("demo"), &file).expect("extraction succeeds");
    assert_eq!(a, b);
}

/// The crate name is the parent of the nearest `src` ancestor of the root file.
#[test]
fn crate_name_from_path() {
    assert_eq!(extract_crate_name("demos/hello_world/src/lib.rs").unwrap(), nm("hello_world"));
    assert_eq!(extract_crate_name("/work/thing/src/nested/mod.rs").unwrap(), nm("thing"));
    assert!(matches!(extract_crate_name("src/lib.rs"), Err(Error::InvalidPath(_))));
    assert!(matches!(extract_crate_name("thing/src/lib.txt"), Err(Error::InvalidPath(_))));
    assert!(matches!(extract_crate_name("thing/lib.rs"), Err(Error::InvalidPath(_))));
    assert!(matches!(extract_crate_name("thing/src/.rs"), Err(Error::InvalidPath(_))));
}

/// Positional fields past the ninth get two-digit names.
#[test]
fn positional_field_names_use_decimal_indices() {
    let fields: Vec<AstField> = (0..12)
        .map(|_| AstField {
            span: sp(),
            name: None,
            vis: Visibility::Inherited,
            ty: ty_path(&["u32"]),
        })
        .collect();
    let arm = AstVariant {
        span: sp(),
        name: "Wide".to_string(),
        attrs: Vec::new(),
        style: AstFieldsStyle::Unnamed,
        fields,
    };
    let file = SourceFile { items: vec![pub_enum("Big", vec![arm])] };
    let idl = extract_idl(nm("demo"), &file).expect("extraction succeeds");
    match &idl.definitions.entries[0].1 {
        Item::Variant(v) => {
            assert_eq!(v.arms[0].fields[0].name, nm("f0"));
            assert_eq!(v.arms[0].fields[9].name, nm("f9"));
            assert_eq!(v.arms[0].fields[10].name, nm("f10"));
            assert_eq!(v.arms[0].fields[11].name, nm("f11"));
        }
        other => panic!("expected a variant, got {:?}", other),
    }
}

/// The sample character subject behaves as its contracts say.
#[test]
fn character_sample() {
    let mut c = Character::new("Tasha", Class::Wizard);
    assert_eq!(c.name(), "Tasha");
    assert!(matches!(c.class(), Class::Wizard));
    assert_eq!(c.level(), 1);
    c.level_up();
    c.level_up();
    assert_eq!(c.level(), 3);
}

/// The sample greetings subject builds and greets per language.
#[test]
fn greetings_sample() {
    assert_eq!(Greetings::new().greet("Ana".to_string()).unwrap(), "Hello, Ana!");
    assert_eq!(
        Greetings::new().language("es").greet("Ana".to_string()).unwrap(),
        "Hola, Ana!",
    );
    assert_eq!(
        Greetings::new().language("fr").greet("Ana".to_string()).unwrap_err(),
        "unknown language fr",
    );
    assert_eq!(greet(Some("Ana")), "Hello, Ana!");
    assert_eq!(greet(None), "Hello, world");
}

/// The code writer indents between block delimiters.
#[test]
fn code_writer_indents() {
    let mut w = CodeWriter::new();
    w.write_fmt("fn demo() {");
    w.write_fmt("call();");
    w.write_fmt("}");
    assert_eq!(w.contents, "fn demo() {\n    call();\n}\n");
    assert_eq!(w.indent, 0);
}

/// Separators go between items, with the closing separator on the last.
#[test]
fn separators_between_items() {
    let r = with_separator(",", "", vec!["a", "b", "c"]);
    assert_eq!(r, vec![("a", ","), ("b", ","), ("c", "")]);
    let empty: Vec<(u32, &str)> = with_separator(",", "", Vec::new());
    assert_eq!(empty.len(), 0);
}

fn future_of(output: AstTy) -> AstTy {
    AstTy {
        span: sp(),
        kind: Box::new(AstTyKind::ImplTrait {
            bounds: vec![gluegun_idl::ast::AstBound::Trait {
                segments: vec![seg_with(
                    "Future",
                    vec![AstGenArg::Assoc { name: "Output".to_string(), ty: output }],
                )],
                span: sp(),
            }],
        }),
    }
}

/// A future of the catch-all result: the return recurses into the output,
/// unwraps the result, and the signature comes out asynchronous.
#[test]
fn future_of_result_return() {
    let ret = future_of(ty_path_args("Result", vec![AstGenArg::Ty(ty_path(&["String"]))]));
    let file = SourceFile { items: vec![pub_fn(sig("fetch", None, vec![], Some(ret)))] };
    let idl = extract_idl(nm("demo"), &file).expect("extraction succeeds");
    match &idl.definitions.entries[0].1 {
        Item::Function(f) => {
            assert_eq!(f.signature.is_async, IsAsync::Yes);
            assert_eq!(f.signature.output_ty.main_ty, t_string());
            assert_eq!(
                f.signature.output_ty.error_ty,
                Some(Ty { span: sp(), kind: Box::new(TypeKind::Error { repr: ErrorRepr::AnyhowError }) }),
            );
        }
        other => panic!("expected a function, got {:?}", other),
    }
}

/// A future of a plain type: the output is the plain type, asynchronous,
/// with no error type.
#[test]
fn future_of_plain_return() {
    let file = SourceFile {
        items: vec![pub_fn(sig("tick", None, vec![], Some(future_of(ty_path(&["u32"])))))],
    };
    let idl = extract_idl(nm("demo"), &file).expect("extraction succeeds");
    match &idl.definitions.entries[0].1 {
        Item::Function(f) => {
            assert_eq!(f.signature.is_async, IsAsync::Yes);
            assert_eq!(f.signature.output_ty.main_ty, t_scalar(Scalar::U32));
            assert_eq!(f.signature.output_ty.error_ty, None);
        }
        other => panic!("expected a function, got {:?}", other),
    }
}

/// An async function returning a future is rejected, as is a future of a
/// future.
#[test]
fn double_async_rejected() {
    let mut async_sig = sig("go", None, vec![], Some(future_of(ty_path(&["u32"]))));
    async_sig.is_async = true;
    let file = SourceFile { items: vec![pub_fn(async_sig)] };
    match extract_idl(nm("demo"), &file) {
        Err(Error::DoubleAsync(_)) => {}
        other => panic!("expected the double-async condition, got {:?}", other),
    }
    let nested = future_of(future_of(ty_path(&["u32"])));
    let file2 = SourceFile { items: vec![pub_fn(sig("go", None, vec![], Some(nested)))] };
    match extract_idl(nm("demo"), &file2) {
        Err(Error::DoubleAsync(_)) => {}
        other => panic!("expected the double-async condition, got {:?}", other),
    }
}

/// A future bound without its output binding is missing the expected
/// associated type.
#[test]
fn future_without_output_rejected() {
    let bare = AstTy {
        span: sp(),
        kind: Box::new(AstTyKind::ImplTrait {
            bounds: vec![gluegun_idl::ast::AstBound::Trait {
                segments: vec![seg("Future")],
                span: sp(),
            }],
        }),
    };
    let file = SourceFile { items: vec![pub_fn(sig("go", None, vec![], Some(bare)))] };
    match extract_idl(nm("demo"), &file) {
        Err(Error::BindingNotFound(_, n)) => assert_eq!(n, nm("Output")),
        other => panic!("expected the missing-binding condition, got {:?}", other),
    }
}

/// In an input position a future stays a future-shaped type; only the
/// return position unwraps it.
#[test]
fn future_input_keeps_future_shape() {
    let file = SourceFile {
        items: vec![pub_fn(sig("spawn", None, vec![input("job", future_of(ty_path(&["u32"])))], None))],
    };
    let idl = extract_idl(nm("demo"), &file).expect("extraction succeeds");
    match &idl.definitions.entries[0].1 {
        Item::Function(f) => {
            assert_eq!(f.signature.is_async, IsAsync::No);
            match &*f.signature.inputs[0].ty.kind {
                TypeKind::Future { output, .. } => {
                    assert_eq!(*output, t_scalar(Scalar::U32));
                }
                other => panic!("expected a future shape, got {:?}", other),
            }
        }
        other => panic!("expected a function, got {:?}", other),
    }
}

/// The primitive scalars are recognized by name.
#[test]
fn primitive_scalars_recognized() {
    let file = SourceFile {
        items: vec![pub_fn(sig(
            "mix",
            None,
            vec![
                input("a", ty_path(&["bool"])),
                input("b", ty_path(&["char"])),
                input("c", ty_path(&["u8"])),
            ],
            None,
        ))],
    };
    let idl = extract_idl(nm("demo"), &file).expect("extraction succeeds");
    match &idl.definitions.entries[0].1 {
        Item::Function(f) => {
            assert_eq!(f.signature.inputs[0].ty, t_scalar(Scalar::Boolean));
            assert_eq!(f.signature.inputs[1].ty, t_scalar(Scalar::Char));
            assert_eq!(f.signature.inputs[2].ty, t_scalar(Scalar::U8));
        }
        other => panic!("expected a function, got {:?}", other),
    }
}

/// Two extractions of the same source serialize to the identical document,
/// and the document reflects the artifact's content.
#[test]
fn serialized_document_is_deterministic() {
    let build = || SourceFile {
        items: vec![pub_struct(
            "Point",
            vec![
                field("x", Visibility::Public, ty_path(&["i64"])),
                field("y", Visibility::Public, ty_path(&["i64"])),
            ],
        )],
    };
    let a = gluegun_idl::document::idl_to_document(
        &extract_idl(nm("demo"), &build()).expect("extraction succeeds"),
    );
    let b = gluegun_idl::document::idl_to_document(
        &extract_idl(nm("demo"), &build()).expect("extraction succeeds"),
    );
    assert_eq!(a, b);
    assert!(a.starts_with("4;demo"));
    assert!(a.contains("5;Point"));
}
