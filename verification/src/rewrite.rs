//! The auto-slice-conversion transformer: every slice-reference parameter
//! `p: &[T]` is replaced by a raw pointer `p: *const T` immediately followed
//! by a synthesized length parameter `p_len: usize`, and a prologue entry is
//! recorded that rebinds `p` to the bounded view over the first `p_len`
//! elements at `p` before the unchanged body runs. Reconstructing a view
//! from a raw pointer is inherently unchecked, so the rewritten function is
//! always marked unsafe; that the caller's length is in bounds is a safety
//! precondition passed on to the caller, not verified at runtime.

use vstd::prelude::*;
use vstd::string::StringExecFns;
use crate::ast::Anchor;
use crate::ast::Binding;
use crate::ast::Diagnostic;
use crate::ast::DiagnosticKind;
use crate::ast::Emitted;
use crate::ast::EmittedFunction;
use crate::ast::Declaration;
use crate::ast::FnInput;
use crate::ast::FunctionDecl;
use crate::ast::Param;
use crate::ast::Rebind;
use crate::ast::TypeExpr;
use crate::validate::is_length_type;

verus! {

/// True of parameters that the rewrite converts: a slice-reference type
/// bound to a plain identifier.
pub open spec fn is_named_slice(x: FnInput) -> bool {
    match x {
        FnInput::Typed(p) => (p.ty matches TypeExpr::SliceRef(_)) && (p.binding
            matches Binding::Named(_)),
        FnInput::Untyped => false,
    }
}

/// True of parameters the rewrite must reject: a slice-reference type whose
/// binding is not a plain identifier.
pub open spec fn is_unnamed_slice(x: FnInput) -> bool {
    match x {
        FnInput::Typed(p) => (p.ty matches TypeExpr::SliceRef(_)) && !(p.binding
            matches Binding::Named(_)),
        FnInput::Untyped => false,
    }
}

/// The position of the first rejected parameter at or after `i`, if any.
pub open spec fn bad_slice_at(src: Seq<FnInput>, i: int) -> Option<int>
    decreases src.len() - i,
{
    if i < 0 || i >= src.len() {
        Option::None
    } else if is_unnamed_slice(src[i]) {
        Option::Some(i)
    } else {
        bad_slice_at(src, i + 1)
    }
}

/// True when `a` and `b` are the lowered pair owed to the converted slice
/// parameter `x`: `a` keeps the name and points at the same element type,
/// `b` is the synthesized `<name>_len: usize`.
pub open spec fn pair_for(x: FnInput, a: FnInput, b: FnInput) -> bool {
    match (x, a, b) {
        (FnInput::Typed(p), FnInput::Typed(pa), FnInput::Typed(pb)) => match (
            p.binding,
            p.ty,
            pa.binding,
            pa.ty,
            pb.binding,
        ) {
            (
                Binding::Named(nm),
                TypeExpr::SliceRef(elem),
                Binding::Named(na),
                TypeExpr::RawPtr(pelem),
                Binding::Named(nb),
            ) => {
                &&& na@ == nm@
                &&& pelem == elem
                &&& nb@ == nm@ + "_len"@
                &&& is_length_type(pb.ty)
            },
            _ => false,
        },
        _ => false,
    }
}

/// True when `rb` is the prologue entry owed to the converted slice
/// parameter `x`: rebind `<name>` from `<name>` and `<name>_len`.
pub open spec fn rebind_for(x: FnInput, rb: Rebind) -> bool {
    match x {
        FnInput::Typed(p) => match p.binding {
            Binding::Named(nm) => rb.name@ == nm@ && rb.len_name@ == nm@ + "_len"@,
            Binding::Other => false,
        },
        FnInput::Untyped => false,
    }
}

/// The rewrite relation: `out` is `src` with every named slice parameter
/// replaced in place by its pointer-and-length pair, every other parameter
/// kept unchanged, and `pro` the prologue entries of the converted
/// parameters in source order.
pub open spec fn rewrites_to(src: Seq<FnInput>, out: Seq<FnInput>, pro: Seq<Rebind>) -> bool
    decreases src.len(),
{
    if src.len() == 0 {
        out.len() == 0 && pro.len() == 0
    } else {
        let x = src.last();
        if is_named_slice(x) {
            &&& out.len() >= 2
            &&& pro.len() >= 1
            &&& pair_for(x, out[out.len() - 2], out[out.len() - 1])
            &&& rebind_for(x, pro.last())
            &&& rewrites_to(src.drop_last(), out.take(out.len() - 2), pro.drop_last())
        } else {
            &&& out.len() >= 1
            &&& out.last() == x
            &&& rewrites_to(src.drop_last(), out.drop_last(), pro)
        }
    }
}

/// The number of parameters the rewrite converts.
pub open spec fn slice_count(src: Seq<FnInput>) -> int
    decreases src.len(),
{
    if src.len() == 0 {
        0
    } else {
        slice_count(src.drop_last()) + if is_named_slice(src.last()) {
            1int
        } else {
            0int
        }
    }
}

/// Skipping a run of accepted parameters does not change which parameter
/// is rejected first.
proof fn lemma_bad_slice_skip(src: Seq<FnInput>, i: int, j: int)
    requires
        0 <= i <= j <= src.len(),
        forall|k: int| i <= k < j ==> !is_unnamed_slice(src[k]),
    ensures
        bad_slice_at(src, i) == bad_slice_at(src, j),
    decreases j - i,
{
    if i < j {
        lemma_bad_slice_skip(src, i + 1, j);
    }
}

/// What the rewrite owes on success: the fixed export attributes, the
/// forced unsafety, the unchanged name, output and body, and the rewritten
/// parameter list with its prologue.
pub open spec fn auto_slice_ok(f: FunctionDecl, e: EmittedFunction) -> bool {
    &&& e.no_mangle
    &&& e.c_abi
    &&& e.is_unsafe
    &&& e.name == f.name
    &&& e.output == f.output
    &&& e.body == f.body
    &&& rewrites_to(f.inputs@, e.inputs@, e.prologue@)
}

/// Converted parameters are counted non-negatively.
proof fn lemma_slice_count_nonneg(src: Seq<FnInput>)
    ensures
        slice_count(src) >= 0,
    decreases src.len(),
{
    if src.len() > 0 {
        lemma_slice_count_nonneg(src.drop_last());
    }
}

/// The rewrite's counting law: the emitted list holds one extra parameter,
/// and the prologue one entry, per converted slice parameter.
pub proof fn lemma_rewrite_lengths(src: Seq<FnInput>, out: Seq<FnInput>, pro: Seq<Rebind>)
    requires
        rewrites_to(src, out, pro),
    ensures
        out.len() == src.len() + slice_count(src),
        pro.len() == slice_count(src),
    decreases src.len(),
{
    if src.len() > 0 {
        if is_named_slice(src.last()) {
            lemma_rewrite_lengths(src.drop_last(), out.take(out.len() - 2), pro.drop_last());
        } else {
            lemma_rewrite_lengths(src.drop_last(), out.drop_last(), pro);
        }
    }
}

/// A rewrite that converts nothing is the identity on the parameter list
/// and synthesizes no prologue.
pub proof fn lemma_rewrite_identity(src: Seq<FnInput>, out: Seq<FnInput>, pro: Seq<Rebind>)
    requires
        rewrites_to(src, out, pro),
        slice_count(src) == 0,
    ensures
        out =~= src,
        pro.len() == 0,
    decreases src.len(),
{
    if src.len() > 0 {
        lemma_slice_count_nonneg(src.drop_last());
        if is_named_slice(src.last()) {
            assert(slice_count(src) >= 1);
        } else {
            lemma_rewrite_identity(src.drop_last(), out.drop_last(), pro);
            assert(out.len() == src.len());
            assert forall|i: int| 0 <= i < src.len() implies out[i] == src[i] by {
                if i < src.len() - 1 {
                    assert(out.drop_last()[i] == src.drop_last()[i]);
                } else {
                    assert(out.last() == src.last());
                }
            }
        }
    }
}

/// True when `a` and `b` are the lowered parameters a prologue entry reads:
/// a raw pointer named as the rebind target next to a length parameter
/// named as the rebind's length.
pub open spec fn lowered_pair(a: FnInput, b: FnInput, rb: Rebind) -> bool {
    match (a, b) {
        (FnInput::Typed(pa), FnInput::Typed(pb)) => match (pa.binding, pa.ty, pb.binding) {
            (Binding::Named(na), TypeExpr::RawPtr(_), Binding::Named(nb)) => {
                &&& na@ == rb.name@
                &&& nb@ == rb.len_name@
                &&& is_length_type(pb.ty)
            },
            _ => false,
        },
        _ => false,
    }
}

/// Every prologue entry of a rewrite reads a pointer parameter and a length
/// parameter that stand next to each other in the emitted list: the view
/// each prologue statement reconstructs is built from parameters the
/// emitted declaration really has.
pub proof fn lemma_prologue_reads_emitted_pair(
    src: Seq<FnInput>,
    out: Seq<FnInput>,
    pro: Seq<Rebind>,
    j: int,
)
    requires
        rewrites_to(src, out, pro),
        0 <= j < pro.len(),
    ensures
        exists|i: int|
            0 <= i < out.len() - 1 && #[trigger] lowered_pair(out[i], out[i + 1], pro[j]),
    decreases src.len(),
{
    if src.len() > 0 {
        let x = src.last();
        if is_named_slice(x) {
            if j == pro.len() - 1 {
                let i = out.len() - 2;
                assert(lowered_pair(out[i], out[i + 1], pro[j]));
            } else {
                let out0 = out.take(out.len() - 2);
                lemma_prologue_reads_emitted_pair(src.drop_last(), out0, pro.drop_last(), j);
                let i = choose|i: int|
                    0 <= i < out0.len() - 1 && #[trigger] lowered_pair(
                        out0[i],
                        out0[i + 1],
                        pro.drop_last()[j],
                    );
                assert(lowered_pair(out[i], out[i + 1], pro[j]));
            }
        } else {
            let out0 = out.drop_last();
            lemma_prologue_reads_emitted_pair(src.drop_last(), out0, pro, j);
            let i = choose|i: int|
                0 <= i < out0.len() - 1 && #[trigger] lowered_pair(out0[i], out0[i + 1], pro[j]);
            assert(lowered_pair(out[i], out[i + 1], pro[j]));
        }
    }
}

/// The contract of the rewrite on a function declaration.
pub open spec fn auto_slice_fn_spec(f: FunctionDecl, r: Result<Emitted, Diagnostic>) -> bool {
    match bad_slice_at(f.inputs@, 0) {
        Option::Some(j) => r matches Err(g) && g.kind == DiagnosticKind::ShapeError
            && g.anchor == Anchor::Param(j as usize) && g.message@ == "expected identifier"@,
        Option::None => r matches Ok(Emitted::Function(e)) && auto_slice_ok(f, e),
    }
}

/// The whole contract of the auto-slice-conversion intent.
pub open spec fn auto_slice_spec(d: Declaration, r: Result<Emitted, Diagnostic>) -> bool {
    match d {
        Declaration::Function(f) => auto_slice_fn_spec(f, r),
        _ => r matches Err(g) && g.kind == DiagnosticKind::UnsupportedItemError && g.anchor
            == Anchor::Item && g.message@ == "auto slice conversion can only be used on functions"@,
    }
}

/// Rewrite a declaration under the auto-slice-conversion intent. Accepts
/// any function whose slice-reference parameters are all bound to plain
/// identifiers, and rejects other items and other bindings.
pub fn auto_slice(d: Declaration) -> (r: Result<Emitted, Diagnostic>)
    ensures
        auto_slice_spec(d, r),
{
    match d {
        Declaration::Function(f) => auto_slice_function(f),
        _ => Err(
            Diagnostic {
                kind: DiagnosticKind::UnsupportedItemError,
                message: "auto slice conversion can only be used on functions".to_owned(),
                anchor: Anchor::Item,
            },
        ),
    }
}

/// The rewrite itself, on a function declaration.
fn auto_slice_function(f: FunctionDecl) -> (r: Result<Emitted, Diagnostic>)
    ensures
        auto_slice_fn_spec(f, r),
{
    let mut out: Vec<FnInput> = Vec::new();
    let mut pro: Vec<Rebind> = Vec::new();
    let mut i: usize = 0;
    while i < f.inputs.len()
        invariant
            0 <= i <= f.inputs.len(),
            forall|k: int| 0 <= k < i ==> !is_unnamed_slice(f.inputs@[k]),
            rewrites_to(f.inputs@.take(i as int), out@, pro@),
        decreases f.inputs.len() - i,
    {
        let ghost prefix = f.inputs@.take(i as int);
        let ghost out0 = out@;
        let ghost pro0 = pro@;
        match &f.inputs[i] {
            FnInput::Typed(p) => match (&p.binding, &p.ty) {
                (Binding::Named(name), TypeExpr::SliceRef(inner)) => {
                    let elem: TypeExpr = (&**inner).clone();
                    let mut len_name = name.clone();
                    len_name.append("_len");
                    out.push(
                        FnInput::Typed(
                            Param {
                                binding: Binding::Named(name.clone()),
                                ty: TypeExpr::RawPtr(Box::new(elem)),
                            },
                        ),
                    );
                    out.push(
                        FnInput::Typed(
                            Param {
                                binding: Binding::Named(len_name.clone()),
                                ty: TypeExpr::Named {
                                    ident: "usize".to_owned(),
                                    arg: None,
                                },
                            },
                        ),
                    );
                    pro.push(Rebind { name: name.clone(), len_name });
                    proof {
                        assert(f.inputs@.take(i as int + 1).drop_last() =~= prefix);
                        assert(f.inputs@.take(i as int + 1).last() == f.inputs@[i as int]);
                        assert(out@.take(out@.len() - 2) =~= out0);
                        assert(pro@.drop_last() =~= pro0);
                    }
                },
                (Binding::Other, TypeExpr::SliceRef(_)) => {
                    proof {
                        lemma_bad_slice_skip(f.inputs@, 0, i as int);
                        assert(is_unnamed_slice(f.inputs@[i as int]));
                        assert(bad_slice_at(f.inputs@, i as int) == Option::Some(
                            i as int,
                        ));
                        assert(bad_slice_at(f.inputs@, 0) == Option::Some(i as int));
                    }
                    return Err(
                        Diagnostic {
                            kind: DiagnosticKind::ShapeError,
                            message: "expected identifier".to_owned(),
                            anchor: Anchor::Param(i),
                        },
                    );
                },
                _ => {
                    out.push(f.inputs[i].clone());
                    proof {
                        assert(f.inputs@.take(i as int + 1).drop_last() =~= prefix);
                        assert(f.inputs@.take(i as int + 1).last() == f.inputs@[i as int]);
                        assert(out@.drop_last() =~= out0);
                    }
                },
            },
            FnInput::Untyped => {
                out.push(f.inputs[i].clone());
                proof {
                    assert(f.inputs@.take(i as int + 1).drop_last() =~= prefix);
                    assert(f.inputs@.take(i as int + 1).last() == f.inputs@[i as int]);
                    assert(out@.drop_last() =~= out0);
                }
            },
        }
        i = i + 1;
    }
    proof {
        lemma_bad_slice_skip(f.inputs@, 0, f.inputs@.len() as int);
        assert(f.inputs@.take(f.inputs@.len() as int) =~= f.inputs@);
    }
    Ok(
        Emitted::Function(
            EmittedFunction {
                no_mangle: true,
                c_abi: true,
                is_unsafe: true,
                name: f.name,
                inputs: out,
                prologue: pro,
                output: f.output,
                body: f.body,
            },
        ),
    )
}

} // verus!
