use plbindgen_macros::Anchor;
use plbindgen_macros::Binding;
use plbindgen_macros::Declaration;
use plbindgen_macros::DiagnosticKind;
use plbindgen_macros::Emitted;
use plbindgen_macros::Fields;
use plbindgen_macros::FnInput;
use plbindgen_macros::FunctionDecl;
use plbindgen_macros::Intent;
use plbindgen_macros::Param;
use plbindgen_macros::Rebind;
use plbindgen_macros::StructDecl;
use plbindgen_macros::TypeAliasDecl;
use plbindgen_macros::TypeExpr;
use plbindgen_macros::Visibility;
use plbindgen_macros::apply;
use plbindgen_macros::apply_batch;
use plbindgen_macros::auto_slice;
use plbindgen_macros::export;
use plbindgen_macros::opaque;
use plbindgen_macros::record;

fn named(name: &str) -> TypeExpr {
    TypeExpr::Named { ident: name.to_string(), arg: None }
}

fn generic(name: &str, inner: TypeExpr) -> TypeExpr {
    TypeExpr::Named { ident: name.to_string(), arg: Some(Box::new(inner)) }
}

fn slice_of(inner: TypeExpr) -> TypeExpr {
    TypeExpr::SliceRef(Box::new(inner))
}

fn param(name: &str, ty: TypeExpr) -> FnInput {
    FnInput::Typed(Param { binding: Binding::Named(name.to_string()), ty })
}

fn fn_decl(vis: Visibility, name: &str, inputs: Vec<FnInput>) -> Declaration {
    Declaration::Function(FunctionDecl {
        vis,
        name: name.to_string(),
        is_unsafe: false,
        inputs,
        output: None,
        body: "{ }".to_string(),
    })
}

#[test]
fn export_requires_public_function() {
    let g = export(fn_decl(Visibility::NonPublic, "f", vec![])).unwrap_err();
    assert_eq!(g.kind, DiagnosticKind::VisibilityError);
    assert_eq!(g.anchor, Anchor::Vis);
    assert_eq!(g.message, "exported function must be public");
}

#[test]
fn export_rejects_untyped_argument() {
    let g = export(fn_decl(
        Visibility::Public,
        "f",
        vec![param("x", named("i32")), FnInput::Untyped],
    ))
    .unwrap_err();
    assert_eq!(g.kind, DiagnosticKind::ShapeError);
    assert_eq!(g.anchor, Anchor::Param(1));
    assert_eq!(g.message, "expected typed argument");
}

#[test]
fn export_rejects_pattern_binding() {
    let g = export(fn_decl(
        Visibility::Public,
        "f",
        vec![FnInput::Typed(Param { binding: Binding::Other, ty: named("i32") })],
    ))
    .unwrap_err();
    assert_eq!(g.kind, DiagnosticKind::ShapeError);
    assert_eq!(g.anchor, Anchor::Param(0));
    assert_eq!(g.message, "expected identifier");
}

#[test]
fn export_rejects_trailing_unpaired_array() {
    let g = export(fn_decl(
        Visibility::Public,
        "f",
        vec![param("a", generic("array", named("i32")))],
    ))
    .unwrap_err();
    assert_eq!(g.kind, DiagnosticKind::PairingError);
    assert_eq!(g.anchor, Anchor::Param(0));
    assert_eq!(g.message, "must be followed by a_len: usize");
}

#[test]
fn export_rejects_mistyped_length() {
    let g = export(fn_decl(
        Visibility::Public,
        "f",
        vec![param("a", generic("array", named("i32"))), param("a_len", named("u32"))],
    ))
    .unwrap_err();
    assert_eq!(g.kind, DiagnosticKind::PairingError);
    assert_eq!(g.anchor, Anchor::Param(0));
    assert_eq!(g.message, "must be followed by a_len: usize");
}

#[test]
fn export_rejects_misnamed_length() {
    let g = export(fn_decl(
        Visibility::Public,
        "f",
        vec![param("a", generic("array", named("i32"))), param("n", named("usize"))],
    ))
    .unwrap_err();
    assert_eq!(g.kind, DiagnosticKind::PairingError);
    assert_eq!(g.anchor, Anchor::Param(0));
    assert_eq!(g.message, "must be followed by a_len: usize");
}

#[test]
fn export_rejects_generic_length_type() {
    let g = export(fn_decl(
        Visibility::Public,
        "f",
        vec![
            param("a", generic("array", named("i32"))),
            param("a_len", generic("usize", named("u8"))),
        ],
    ))
    .unwrap_err();
    assert_eq!(g.kind, DiagnosticKind::PairingError);
    assert_eq!(g.anchor, Anchor::Param(0));
}

#[test]
fn export_rejects_non_function() {
    let g = export(Declaration::Other).unwrap_err();
    assert_eq!(g.kind, DiagnosticKind::UnsupportedItemError);
    assert_eq!(g.anchor, Anchor::Item);
    assert_eq!(g.message, "#[export] can only be used on functions");
}

#[test]
fn record_rejects_non_struct() {
    let g = record(fn_decl(Visibility::Public, "f", vec![])).unwrap_err();
    assert_eq!(g.kind, DiagnosticKind::UnsupportedItemError);
    assert_eq!(g.anchor, Anchor::Item);
    assert_eq!(g.message, "#[record] can only be used on structs");
}

#[test]
fn record_requires_public_struct() {
    let g = record(Declaration::Struct(StructDecl {
        vis: Visibility::NonPublic,
        name: "P".to_string(),
        fields: Fields::Named(vec![]),
    }))
    .unwrap_err();
    assert_eq!(g.kind, DiagnosticKind::VisibilityError);
    assert_eq!(g.anchor, Anchor::Vis);
    assert_eq!(g.message, "#[record] struct must be public");
}

#[test]
fn opaque_accepts_public_type_alias() {
    let out = opaque(Declaration::TypeAlias(TypeAliasDecl {
        vis: Visibility::Public,
        name: "handle".to_string(),
        ty: TypeExpr::RawPtr(Box::new(named("Widget"))),
    }))
    .unwrap();
    match out {
        Emitted::TypeAlias(e) => {
            assert_eq!(e.name, "handle");
            assert_eq!(e.ty, TypeExpr::RawPtr(Box::new(named("Widget"))));
        }
        other => panic!("expected an emitted type alias, got {:?}", other),
    }
}

#[test]
fn opaque_requires_public_type_alias() {
    let g = opaque(Declaration::TypeAlias(TypeAliasDecl {
        vis: Visibility::NonPublic,
        name: "handle".to_string(),
        ty: named("Widget"),
    }))
    .unwrap_err();
    assert_eq!(g.kind, DiagnosticKind::VisibilityError);
    assert_eq!(g.anchor, Anchor::Vis);
    assert_eq!(g.message, "#[opaque] type must be public");
}

#[test]
fn opaque_rejects_other_items() {
    let g = opaque(Declaration::Other).unwrap_err();
    assert_eq!(g.kind, DiagnosticKind::UnsupportedItemError);
    assert_eq!(g.anchor, Anchor::Item);
    assert_eq!(g.message, "#[opaque] can only be used on structs or type aliases");
}

#[test]
fn auto_slice_rejects_pattern_bound_slice() {
    let g = auto_slice(fn_decl(
        Visibility::Public,
        "f",
        vec![
            param("x", named("i32")),
            FnInput::Typed(Param { binding: Binding::Other, ty: slice_of(named("u8")) }),
        ],
    ))
    .unwrap_err();
    assert_eq!(g.kind, DiagnosticKind::ShapeError);
    assert_eq!(g.anchor, Anchor::Param(1));
    assert_eq!(g.message, "expected identifier");
}

#[test]
fn auto_slice_rejects_non_function() {
    let g = auto_slice(Declaration::Other).unwrap_err();
    assert_eq!(g.kind, DiagnosticKind::UnsupportedItemError);
    assert_eq!(g.anchor, Anchor::Item);
    assert_eq!(g.message, "auto slice conversion can only be used on functions");
}

#[test]
fn auto_slice_keeps_other_parameters_in_place() {
    let out = auto_slice(fn_decl(
        Visibility::NonPublic,
        "mix",
        vec![
            param("x", named("i32")),
            param("s", slice_of(named("u8"))),
            param("flag", named("bool")),
        ],
    ))
    .unwrap();
    let f = match out {
        Emitted::Function(f) => f,
        other => panic!("expected an emitted function, got {:?}", other),
    };
    assert!(f.is_unsafe);
    assert_eq!(
        f.inputs,
        vec![
            param("x", named("i32")),
            param("s", TypeExpr::RawPtr(Box::new(named("u8")))),
            param("s_len", named("usize")),
            param("flag", named("bool")),
        ]
    );
    assert_eq!(
        f.prologue,
        vec![Rebind { name: "s".to_string(), len_name: "s_len".to_string() }]
    );
}

#[test]
fn auto_slice_converts_every_slice_parameter() {
    let out = auto_slice(fn_decl(
        Visibility::Public,
        "two",
        vec![param("a", slice_of(named("i32"))), param("b", slice_of(named("u8")))],
    ))
    .unwrap();
    let f = match out {
        Emitted::Function(f) => f,
        other => panic!("expected an emitted function, got {:?}", other),
    };
    assert_eq!(
        f.inputs,
        vec![
            param("a", TypeExpr::RawPtr(Box::new(named("i32")))),
            param("a_len", named("usize")),
            param("b", TypeExpr::RawPtr(Box::new(named("u8")))),
            param("b_len", named("usize")),
        ]
    );
    assert_eq!(
        f.prologue,
        vec![
            Rebind { name: "a".to_string(), len_name: "a_len".to_string() },
            Rebind { name: "b".to_string(), len_name: "b_len".to_string() },
        ]
    );
}

#[test]
fn auto_slice_passes_untyped_arguments_through() {
    let out = auto_slice(fn_decl(
        Visibility::Public,
        "m",
        vec![FnInput::Untyped, param("s", slice_of(named("u8")))],
    ))
    .unwrap();
    let f = match out {
        Emitted::Function(f) => f,
        other => panic!("expected an emitted function, got {:?}", other),
    };
    assert_eq!(f.inputs.len(), 3);
    assert_eq!(f.inputs[0], FnInput::Untyped);
}

#[test]
fn apply_dispatches_on_intent() {
    let g = apply(Intent::ExportFunction, Declaration::Other).unwrap_err();
    assert_eq!(g.message, "#[export] can only be used on functions");
    let g = apply(Intent::ExportRecord, Declaration::Other).unwrap_err();
    assert_eq!(g.message, "#[record] can only be used on structs");
    let g = apply(Intent::ExportOpaque, Declaration::Other).unwrap_err();
    assert_eq!(g.message, "#[opaque] can only be used on structs or type aliases");
    let g = apply(Intent::AutoSliceConversion, Declaration::Other).unwrap_err();
    assert_eq!(g.message, "auto slice conversion can only be used on functions");
}

#[test]
fn batch_keeps_going_past_rejections() {
    let out = apply_batch(vec![
        (Intent::ExportFunction, fn_decl(Visibility::NonPublic, "a", vec![])),
        (Intent::ExportFunction, fn_decl(Visibility::Public, "b", vec![])),
        (Intent::ExportRecord, Declaration::Other),
        (
            Intent::ExportOpaque,
            Declaration::Struct(StructDecl {
                vis: Visibility::Public,
                name: "H".to_string(),
                fields: Fields::Unit,
            }),
        ),
    ]);
    assert_eq!(out.len(), 4);
    assert_eq!(out[0].as_ref().unwrap_err().kind, DiagnosticKind::VisibilityError);
    assert!(out[1].is_ok());
    assert_eq!(
        out[2].as_ref().unwrap_err().kind,
        DiagnosticKind::UnsupportedItemError
    );
    assert!(out[3].is_ok());
}

#[test]
fn empty_parameter_list_is_accepted() {
    let out = export(fn_decl(Visibility::Public, "nop", vec![])).unwrap();
    match out {
        Emitted::Function(f) => {
            assert!(f.inputs.is_empty());
            assert!(f.prologue.is_empty());
        }
        other => panic!("expected an emitted function, got {:?}", other),
    }
}
