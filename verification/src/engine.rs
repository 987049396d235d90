//! The engine: one pure function per intent from a declaration to a
//! rewritten declaration or a diagnostic, and the dispatcher over intents.
//! Every stage returns a new value; a declaration is either fully accepted
//! and rewritten, or fully rejected with one diagnostic.

use vstd::prelude::*;
use crate::ast::Anchor;
use crate::ast::Declaration;
use crate::ast::Diagnostic;
use crate::ast::DiagnosticKind;
use crate::ast::Emitted;
use crate::ast::EmittedFunction;
use crate::ast::EmittedStruct;
use crate::ast::EmittedTypeAlias;
use crate::ast::Fields;
use crate::ast::FunctionDecl;
use crate::ast::StructDecl;
use crate::ast::TypeAliasDecl;
use crate::ast::Visibility;
use crate::validate::Verdict;
use crate::validate::export_verdict;
use crate::validate::validate_export_inputs;
use crate::validate::verdict_diag;
use crate::rewrite::auto_slice_spec;

verus! {

/// The caller-selected transformation mode.
#[derive(PartialEq, Eq, Structural, Clone, Copy, Debug)]
pub enum Intent {
    /// Validate pairing and wrap the function with the fixed export
    /// attributes; the parameter list is passed through unchanged.
    ExportFunction,
    /// Pass the structure through with the fixed C-compatible layout.
    ExportRecord,
    /// Mark a structure or type alias as a stable opaque handle.
    ExportOpaque,
    /// Split slice parameters into pointer-and-length pairs and inject a
    /// prologue that rebinds the bounded views.
    AutoSliceConversion,
}

/// A diagnostic that rejects the item kind as a whole.
pub open spec fn is_unsupported_diag(g: Diagnostic, msg: Seq<char>) -> bool {
    &&& g.kind == DiagnosticKind::UnsupportedItemError
    &&& g.anchor == Anchor::Item
    &&& g.message@ == msg
}

/// A diagnostic that rejects a non-public declaration.
pub open spec fn is_visibility_diag(g: Diagnostic, msg: Seq<char>) -> bool {
    &&& g.kind == DiagnosticKind::VisibilityError
    &&& g.anchor == Anchor::Vis
    &&& g.message@ == msg
}

/// What the export-function intent owes on success: the fixed export
/// attributes, and everything else passed through unchanged.
pub open spec fn export_ok(f: FunctionDecl, e: EmittedFunction) -> bool {
    &&& e.no_mangle
    &&& e.c_abi
    &&& e.is_unsafe == f.is_unsafe
    &&& e.name == f.name
    &&& e.inputs@ == f.inputs@
    &&& e.prologue@.len() == 0
    &&& e.output == f.output
    &&& e.body == f.body
}

/// The contract of export-function on a function declaration: public
/// visibility, then the pairing verdict decides.
pub open spec fn export_fn_spec(f: FunctionDecl, r: Result<Emitted, Diagnostic>) -> bool {
    if f.vis != Visibility::Public {
        r matches Err(g) && is_visibility_diag(g, "exported function must be public"@)
    } else {
        match export_verdict(f.inputs@) {
            Verdict::Accept => r matches Ok(Emitted::Function(e)) && export_ok(f, e),
            v => r matches Err(g) && verdict_diag(v, g),
        }
    }
}

/// The whole contract of the export-function intent.
pub open spec fn export_spec(d: Declaration, r: Result<Emitted, Diagnostic>) -> bool {
    match d {
        Declaration::Function(f) => export_fn_spec(f, r),
        _ => r matches Err(g) && is_unsupported_diag(
            g,
            "#[export] can only be used on functions"@,
        ),
    }
}

/// Export a function across the foreign boundary: demand public
/// visibility, enforce the array/length pairing convention, and attach the
/// fixed symbol name and C calling convention, changing nothing else.
pub fn export(d: Declaration) -> (r: Result<Emitted, Diagnostic>)
    ensures
        export_spec(d, r),
{
    match d {
        Declaration::Function(f) => export_function(f),
        _ => Err(
            Diagnostic {
                kind: DiagnosticKind::UnsupportedItemError,
                message: "#[export] can only be used on functions".to_owned(),
                anchor: Anchor::Item,
            },
        ),
    }
}

/// The export-function intent on a function declaration.
fn export_function(f: FunctionDecl) -> (r: Result<Emitted, Diagnostic>)
    ensures
        export_fn_spec(f, r),
{
    if f.vis != Visibility::Public {
        return Err(
            Diagnostic {
                kind: DiagnosticKind::VisibilityError,
                message: "exported function must be public".to_owned(),
                anchor: Anchor::Vis,
            },
        );
    }
    match validate_export_inputs(&f.inputs) {
        Err(g) => Err(g),
        Ok(()) => Ok(
            Emitted::Function(
                EmittedFunction {
                    no_mangle: true,
                    c_abi: true,
                    is_unsafe: f.is_unsafe,
                    name: f.name,
                    inputs: f.inputs,
                    prologue: Vec::new(),
                    output: f.output,
                    body: f.body,
                },
            ),
        ),
    }
}

/// What the export-record intent owes on success: the fixed C layout, the
/// fields passed through in their declared order.
pub open spec fn record_ok(s: StructDecl, e: EmittedStruct) -> bool {
    &&& e.repr_c
    &&& e.name == s.name
    &&& e.fields == s.fields
}

/// The contract of export-record on a structure declaration.
pub open spec fn record_struct_spec(s: StructDecl, r: Result<Emitted, Diagnostic>) -> bool {
    if s.vis != Visibility::Public {
        r matches Err(g) && is_visibility_diag(g, "#[record] struct must be public"@)
    } else if !(s.fields matches Fields::Named(_)) {
        r matches Err(g) && g.kind == DiagnosticKind::ShapeError && g.anchor == Anchor::Fields
            && g.message@ == "#[record] struct must have named fields"@
    } else {
        r matches Ok(Emitted::Struct(e)) && record_ok(s, e)
    }
}

/// The whole contract of the export-record intent.
pub open spec fn record_spec(d: Declaration, r: Result<Emitted, Diagnostic>) -> bool {
    match d {
        Declaration::Struct(s) => record_struct_spec(s, r),
        _ => r matches Err(g) && is_unsupported_diag(g, "#[record] can only be used on structs"@),
    }
}

/// Export a structure as a C-layout record: demand public visibility and
/// named fields, and attach the fixed C-compatible layout attribute; the
/// fields keep their declared order exactly.
pub fn record(d: Declaration) -> (r: Result<Emitted, Diagnostic>)
    ensures
        record_spec(d, r),
{
    match d {
        Declaration::Struct(s) => record_struct(s),
        _ => Err(
            Diagnostic {
                kind: DiagnosticKind::UnsupportedItemError,
                message: "#[record] can only be used on structs".to_owned(),
                anchor: Anchor::Item,
            },
        ),
    }
}

/// The export-record intent on a structure declaration.
fn record_struct(s: StructDecl) -> (r: Result<Emitted, Diagnostic>)
    ensures
        record_struct_spec(s, r),
{
    if s.vis != Visibility::Public {
        return Err(
            Diagnostic {
                kind: DiagnosticKind::VisibilityError,
                message: "#[record] struct must be public".to_owned(),
                anchor: Anchor::Vis,
            },
        );
    }
    match &s.fields {
        Fields::Named(_) => Ok(
            Emitted::Struct(EmittedStruct { repr_c: true, name: s.name, fields: s.fields }),
        ),
        _ => Err(
            Diagnostic {
                kind: DiagnosticKind::ShapeError,
                message: "#[record] struct must have named fields".to_owned(),
                anchor: Anchor::Fields,
            },
        ),
    }
}

/// What the export-opaque intent owes on success for a structure: no
/// layout attribute, everything passed through unchanged.
pub open spec fn opaque_struct_ok(s: StructDecl, e: EmittedStruct) -> bool {
    &&& !e.repr_c
    &&& e.name == s.name
    &&& e.fields == s.fields
}

/// The contract of export-opaque on a structure declaration.
pub open spec fn opaque_struct_spec(s: StructDecl, r: Result<Emitted, Diagnostic>) -> bool {
    if s.vis != Visibility::Public {
        r matches Err(g) && is_visibility_diag(g, "#[opaque] struct must be public"@)
    } else {
        r matches Ok(Emitted::Struct(e)) && opaque_struct_ok(s, e)
    }
}

/// The contract of export-opaque on a type alias.
pub open spec fn opaque_type_spec(t: TypeAliasDecl, r: Result<Emitted, Diagnostic>) -> bool {
    if t.vis != Visibility::Public {
        r matches Err(g) && is_visibility_diag(g, "#[opaque] type must be public"@)
    } else {
        r matches Ok(Emitted::TypeAlias(e)) && e.name == t.name && e.ty == t.ty
    }
}

/// The whole contract of the export-opaque intent.
pub open spec fn opaque_spec(d: Declaration, r: Result<Emitted, Diagnostic>) -> bool {
    match d {
        Declaration::Struct(s) => opaque_struct_spec(s, r),
        Declaration::TypeAlias(t) => opaque_type_spec(t, r),
        _ => r matches Err(g) && is_unsupported_diag(
            g,
            "#[opaque] can only be used on structs or type aliases"@,
        ),
    }
}

/// Mark a public structure or type alias as an opaque boundary handle:
/// callers across the boundary only ever hold and pass its address. Any
/// field shape is accepted and passed through unchanged.
pub fn opaque(d: Declaration) -> (r: Result<Emitted, Diagnostic>)
    ensures
        opaque_spec(d, r),
{
    match d {
        Declaration::Struct(s) => opaque_struct(s),
        Declaration::TypeAlias(t) => opaque_type(t),
        _ => Err(
            Diagnostic {
                kind: DiagnosticKind::UnsupportedItemError,
                message: "#[opaque] can only be used on structs or type aliases".to_owned(),
                anchor: Anchor::Item,
            },
        ),
    }
}

/// The export-opaque intent on a structure declaration.
fn opaque_struct(s: StructDecl) -> (r: Result<Emitted, Diagnostic>)
    ensures
        opaque_struct_spec(s, r),
{
    if s.vis != Visibility::Public {
        return Err(
            Diagnostic {
                kind: DiagnosticKind::VisibilityError,
                message: "#[opaque] struct must be public".to_owned(),
                anchor: Anchor::Vis,
            },
        );
    }
    Ok(Emitted::Struct(EmittedStruct { repr_c: false, name: s.name, fields: s.fields }))
}

/// The export-opaque intent on a type alias.
fn opaque_type(t: TypeAliasDecl) -> (r: Result<Emitted, Diagnostic>)
    ensures
        opaque_type_spec(t, r),
{
    if t.vis != Visibility::Public {
        return Err(
            Diagnostic {
                kind: DiagnosticKind::VisibilityError,
                message: "#[opaque] type must be public".to_owned(),
                anchor: Anchor::Vis,
            },
        );
    }
    Ok(Emitted::TypeAlias(EmittedTypeAlias { name: t.name, ty: t.ty }))
}

/// The contract the engine keeps for one unit of work, by intent.
pub open spec fn applies_to(intent: Intent, d: Declaration, r: Result<Emitted, Diagnostic>) -> bool {
    match intent {
        Intent::ExportFunction => export_spec(d, r),
        Intent::ExportRecord => record_spec(d, r),
        Intent::ExportOpaque => opaque_spec(d, r),
        Intent::AutoSliceConversion => auto_slice_spec(d, r),
    }
}

/// The engine as one pure function from an intent and a declaration to a
/// rewritten declaration or a diagnostic.
pub fn apply(intent: Intent, d: Declaration) -> (r: Result<Emitted, Diagnostic>)
    ensures
        applies_to(intent, d, r),
{
    match intent {
        Intent::ExportFunction => export(d),
        Intent::ExportRecord => record(d),
        Intent::ExportOpaque => opaque(d),
        Intent::AutoSliceConversion => crate::rewrite::auto_slice(d),
    }
}

/// Declarations are processed independently: every unit of work receives
/// its own verdict under its own intent, and a rejection never suppresses
/// the processing of the declarations after it.
pub fn apply_batch(work: Vec<(Intent, Declaration)>) -> (out: Vec<
    Result<Emitted, Diagnostic>,
>)
    ensures
        out@.len() == work@.len(),
        forall|i: int|
            0 <= i < work@.len() ==> #[trigger] applies_to(work@[i].0, work@[i].1, out@[i]),
{
    let ghost orig = work@;
    let mut rest = work;
    let mut out: Vec<Result<Emitted, Diagnostic>> = Vec::new();
    while rest.len() > 0
        invariant
            out@.len() + rest@.len() == orig.len(),
            rest@ == orig.subrange(out@.len() as int, orig.len() as int),
            forall|i: int|
                0 <= i < out@.len() ==> #[trigger] applies_to(orig[i].0, orig[i].1, out@[i]),
        decreases rest.len(),
    {
        let ghost done = out@.len() as int;
        let (intent, d) = rest.remove(0);
        let r = apply(intent, d);
        out.push(r);
        proof {
            assert(rest@ =~= orig.subrange(done + 1, orig.len() as int));
        }
    }
    out
}

/// Order preservation for export-function: the emitted parameter list
/// equals the source list, position by position.
pub proof fn lemma_function_order_preserved(f: FunctionDecl, e: EmittedFunction)
    requires
        export_ok(f, e),
    ensures
        e.inputs@.len() == f.inputs@.len(),
        forall|i: int| 0 <= i < f.inputs@.len() ==> e.inputs@[i] == f.inputs@[i],
{
}

/// Order preservation for the structure intents: whatever field shape a
/// passed-through structure has, the emitted fields equal the source
/// fields, position by position.
pub proof fn lemma_struct_order_preserved(s: StructDecl, e: EmittedStruct)
    requires
        e.fields == s.fields,
    ensures
        s.fields matches Fields::Named(v) ==> e.fields matches Fields::Named(w) && w@.len()
            == v@.len() && (forall|i: int| 0 <= i < v@.len() ==> w@[i] == v@[i]),
        s.fields matches Fields::Positional(v) ==> e.fields matches Fields::Positional(w)
            && w@.len() == v@.len() && (forall|i: int| 0 <= i < v@.len() ==> w@[i] == v@[i]),
{
}

} // verus!
