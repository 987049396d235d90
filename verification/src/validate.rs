//! The validator for the export-function intent: a left-to-right scan of
//! the parameter list driving a two-state pairing machine. At most one
//! array-shaped parameter may be "in flight" awaiting its length at a time;
//! an array parameter opens a pairing expectation keyed on `<name>_len`,
//! and the very next parameter must close it.

use vstd::prelude::*;
use vstd::string::StringExecFns;
use crate::ast::Anchor;
use crate::ast::Binding;
use crate::ast::Diagnostic;
use crate::ast::DiagnosticKind;
use crate::ast::FnInput;
use crate::ast::TypeExpr;
use crate::shape::TypeShape;
use crate::shape::classify;
use crate::shape::spec_classify;

verus! {

/// True of the one scalar type accepted for a length parameter: the bare
/// platform size type, with no generic argument.
pub open spec fn is_length_type(t: TypeExpr) -> bool {
    match t {
        TypeExpr::Named { ident, arg } => arg is None && ident@ == "usize"@,
        _ => false,
    }
}

/// True of types classified as the reserved array alias.
pub open spec fn is_array_type(t: TypeExpr) -> bool {
    spec_classify(t) == TypeShape::ArrayAlias
}

/// The outcome of scanning a parameter list under the export-function
/// pairing rules.
pub enum Verdict {
    /// Every parameter is a plain typed identifier and every array-alias
    /// parameter is properly paired.
    Accept,
    /// The parameter at `at` carries no standalone type.
    Untyped { at: int },
    /// The parameter at `at` is not bound to a plain identifier.
    NotIdent { at: int },
    /// The array-alias parameter at `anchor` is not followed by a length
    /// parameter named `expected` of the length type.
    Mispaired { anchor: int, expected: Seq<char> },
}

/// The pairing scan from position `i` with an optional open expectation:
/// the expected length-parameter name and the position of the array-alias
/// parameter that opened it.
pub open spec fn scan(inputs: Seq<FnInput>, i: int, pending: Option<(Seq<char>, int)>) -> Verdict
    decreases inputs.len() - i,
{
    if i < 0 || i >= inputs.len() {
        match pending {
            Option::None => Verdict::Accept,
            Option::Some((expected, anchor)) => Verdict::Mispaired { anchor, expected },
        }
    } else {
        match inputs[i] {
            FnInput::Untyped => Verdict::Untyped { at: i },
            FnInput::Typed(p) => match p.binding {
                Binding::Other => Verdict::NotIdent { at: i },
                Binding::Named(name) => match pending {
                    Option::Some((expected, anchor)) => {
                        if name@ == expected && is_length_type(p.ty) {
                            scan(inputs, i + 1, Option::None)
                        } else {
                            Verdict::Mispaired { anchor, expected }
                        }
                    },
                    Option::None => {
                        if is_array_type(p.ty) {
                            scan(inputs, i + 1, Option::Some((name@ + "_len"@, i)))
                        } else {
                            scan(inputs, i + 1, Option::None)
                        }
                    },
                },
            },
        }
    }
}

/// The verdict on a whole parameter list under export-function.
pub open spec fn export_verdict(inputs: Seq<FnInput>) -> Verdict {
    scan(inputs, 0, Option::None)
}

/// Relates a rejecting verdict to the diagnostic a validator must return
/// for it: the kind, the anchor and the message, pinned down in full.
pub open spec fn verdict_diag(v: Verdict, g: Diagnostic) -> bool {
    match v {
        Verdict::Accept => false,
        Verdict::Untyped { at } => {
            &&& g.kind == DiagnosticKind::ShapeError
            &&& g.anchor == Anchor::Param(at as usize)
            &&& g.message@ == "expected typed argument"@
        },
        Verdict::NotIdent { at } => {
            &&& g.kind == DiagnosticKind::ShapeError
            &&& g.anchor == Anchor::Param(at as usize)
            &&& g.message@ == "expected identifier"@
        },
        Verdict::Mispaired { anchor, expected } => {
            &&& g.kind == DiagnosticKind::PairingError
            &&& g.anchor == Anchor::Param(anchor as usize)
            &&& g.message@ == "must be followed by "@ + expected + ": usize"@
        },
    }
}

/// The spec-level image of the validator's exec pairing register.
pub open spec fn pending_view(p: Option<(String, usize)>) -> Option<(Seq<char>, int)> {
    match p {
        Option::None => Option::None,
        Option::Some((s, a)) => Option::Some((s@, a as int)),
    }
}

/// True exactly when the type is the bare length type.
pub fn is_length_type_exec(t: &TypeExpr) -> (r: bool)
    ensures
        r == is_length_type(*t),
{
    match t {
        TypeExpr::Named { ident, arg } => {
            let mut usize_name: String = "usize".to_owned();
            arg.is_none() && *ident == usize_name
        },
        _ => false,
    }
}

/// The message of a pairing diagnostic, naming the expected identifier.
fn pairing_message(expected: &String) -> (m: String)
    ensures
        m@ == "must be followed by "@ + expected@ + ": usize"@,
{
    let mut m: String = "must be followed by ".to_owned();
    m.append(expected.as_str());
    m.append(": usize");
    m
}

/// Scan a parameter list under the export-function rules. Returns `Ok`
/// exactly when the pairing machine accepts, and otherwise the diagnostic
/// that the rejecting verdict owes.
pub fn validate_export_inputs(inputs: &Vec<FnInput>) -> (r: Result<(), Diagnostic>)
    ensures
        (export_verdict(inputs@) is Accept) <==> (r is Ok),
        r matches Err(g) ==> verdict_diag(export_verdict(inputs@), g),
{
    let mut i: usize = 0;
    let mut pending: Option<(String, usize)> = None;
    while i < inputs.len()
        invariant
            0 <= i <= inputs.len(),
            scan(inputs@, 0, Option::None) == scan(inputs@, i as int, pending_view(pending)),
        decreases inputs.len() - i,
    {
        match &inputs[i] {
            FnInput::Untyped => {
                return Err(Diagnostic {
                    kind: DiagnosticKind::ShapeError,
                    message: "expected typed argument".to_owned(),
                    anchor: Anchor::Param(i),
                });
            },
            FnInput::Typed(p) => match &p.binding {
                Binding::Other => {
                    return Err(Diagnostic {
                        kind: DiagnosticKind::ShapeError,
                        message: "expected identifier".to_owned(),
                        anchor: Anchor::Param(i),
                    });
                },
                Binding::Named(name) => {
                    let prev = pending;
                    pending = None;
                    match prev {
                        Some((expected, anchor)) => {
                            if *name == expected && is_length_type_exec(&p.ty) {
                                // expectation closed; register stays empty
                            } else {
                                return Err(Diagnostic {
                                    kind: DiagnosticKind::PairingError,
                                    message: pairing_message(&expected),
                                    anchor: Anchor::Param(anchor),
                                });
                            }
                        },
                        None => {
                            if classify(&p.ty) == TypeShape::ArrayAlias {
                                let mut expected = name.clone();
                                expected.append("_len");
                                pending = Some((expected, i));
                            }
                        },
                    }
                },
            },
        }
        i = i + 1;
    }
    match pending {
        Some((expected, anchor)) => Err(Diagnostic {
            kind: DiagnosticKind::PairingError,
            message: pairing_message(&expected),
            anchor: Anchor::Param(anchor),
        }),
        None => Ok(()),
    }
}

/// True of parameter-list entries that carry the reserved array alias type.
pub open spec fn is_array_input(x: FnInput) -> bool {
    match x {
        FnInput::Typed(p) => is_array_type(p.ty),
        FnInput::Untyped => false,
    }
}

/// True when `y` is the length parameter owed to the array-alias parameter
/// `x`: a plain identifier named `<name>_len` of the length type.
pub open spec fn is_length_for(x: FnInput, y: FnInput) -> bool {
    match (x, y) {
        (FnInput::Typed(p), FnInput::Typed(q)) => match (p.binding, q.binding) {
            (Binding::Named(name), Binding::Named(m)) => {
                &&& m@ == name@ + "_len"@
                &&& is_length_type(q.ty)
            },
            _ => false,
        },
        _ => false,
    }
}

/// An open expectation is only ever accepted by its matching length
/// parameter standing right at the scan position.
proof fn lemma_scan_pending_closes(
    inputs: Seq<FnInput>,
    j: int,
    expected: Seq<char>,
    anchor: int,
)
    requires
        scan(inputs, j, Option::Some((expected, anchor))) == Verdict::Accept,
    ensures
        0 <= j < inputs.len(),
        inputs[j] matches FnInput::Typed(q) && q.binding matches Binding::Named(m)
            && m@ == expected && is_length_type(q.ty),
{
    if j < 0 || j >= inputs.len() {
        assert(scan(inputs, j, Option::Some((expected, anchor)))
            == (Verdict::Mispaired { anchor, expected }));
    }
}

/// The induction behind the pairing invariant: from any accepting scan
/// state, every array-alias parameter at or after the scan position is
/// immediately followed by its length parameter.
proof fn lemma_scan_pairing(
    inputs: Seq<FnInput>,
    i: int,
    pending: Option<(Seq<char>, int)>,
    k: int,
)
    requires
        0 <= i <= inputs.len(),
        scan(inputs, i, pending) == Verdict::Accept,
        i <= k < inputs.len(),
        is_array_input(inputs[k]),
    ensures
        k + 1 < inputs.len(),
        is_length_for(inputs[k], inputs[k + 1]),
    decreases inputs.len() - i,
{
    reveal_strlit("usize");
    reveal_strlit("array");
    match inputs[i] {
        FnInput::Untyped => {
            assert(scan(inputs, i, pending) == (Verdict::Untyped { at: i }));
        },
        FnInput::Typed(p) => match p.binding {
            Binding::Other => {
                assert(scan(inputs, i, pending) == (Verdict::NotIdent { at: i }));
            },
            Binding::Named(name) => match pending {
                Option::Some((expected, anchor)) => {
                    // To accept, this parameter must close the expectation,
                    // so it has the length type and cannot itself be the
                    // array alias.
                    assert(name@ == expected && is_length_type(p.ty));
                    if i == k {
                        match p.ty {
                            TypeExpr::Named { ident, arg } => {
                                assert(ident@ == "usize"@);
                                assert(ident@ == "array"@);
                                assert("usize"@[0] == 'u');
                                assert("array"@[0] == 'a');
                                assert(false);
                            },
                            _ => {
                                assert(false);
                            },
                        }
                    }
                    lemma_scan_pairing(inputs, i + 1, Option::None, k);
                },
                Option::None => {
                    if is_array_type(p.ty) {
                        let e = name@ + "_len"@;
                        assert(scan(inputs, i + 1, Option::Some((e, i))) == Verdict::Accept);
                        lemma_scan_pending_closes(inputs, i + 1, e, i);
                        if i == k {
                            // The very next parameter closes the expectation
                            // opened here, which is exactly the owed pairing.
                        } else {
                            lemma_scan_pairing(inputs, i + 1, Option::Some((e, i)), k);
                        }
                    } else {
                        assert(i != k);
                        lemma_scan_pairing(inputs, i + 1, Option::None, k);
                    }
                },
            },
        },
    }
}

/// Pairing invariant: in every parameter list accepted under the
/// export-function intent, each array-alias parameter is immediately
/// followed by a parameter named `<name>_len` of the scalar length type.
pub proof fn lemma_pairing_invariant(inputs: Seq<FnInput>, k: int)
    requires
        export_verdict(inputs) == Verdict::Accept,
        0 <= k < inputs.len(),
        is_array_input(inputs[k]),
    ensures
        k + 1 < inputs.len(),
        is_length_for(inputs[k], inputs[k + 1]),
{
    lemma_scan_pairing(inputs, 0, Option::None, k);
}

} // verus!
