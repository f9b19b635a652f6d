//! The `prefer_addr` lint: a reference cast straight to the matching raw
//! pointer type is better written with `ptr::addr_of!` / `ptr::addr_of_mut!`.
use vstd::prelude::*;

use crate::ast::{Expr, ExprKind, Mutability, Span, Ty};

verus! {

/// The lint's identifier.
pub const LINT_NAME: &'static str = "prefer_addr";

/// The message of every diagnostic of this lint.
pub const LINT_MSG: &'static str = "Use `ptr::addr_of` or `ptr::addr_of_mut` when applicable";

/// How a diagnostic is surfaced.
#[derive(Clone, Copy, Debug, PartialEq, Eq, Structural)]
pub enum Level {
    /// A style warning.
    Style,
}

/// The construct a flagged cast should be rewritten to.
#[derive(Clone, Copy, Debug, PartialEq, Eq, Structural)]
pub enum AddrOfMacro {
    /// `ptr::addr_of!(place)`, replacing `&place as *const T`.
    AddrOf,
    /// `ptr::addr_of_mut!(place)`, replacing `&mut place as *mut T`.
    AddrOfMut,
}

pub open spec fn macro_path(m: AddrOfMacro) -> Seq<char> {
    match m {
        AddrOfMacro::AddrOf => "ptr::addr_of"@,
        AddrOfMacro::AddrOfMut => "ptr::addr_of_mut"@,
    }
}

impl AddrOfMacro {
    /// The path of the macro, without the `!`.
    pub fn path(&self) -> (r: &'static str)
        ensures
            r@ == macro_path(*self),
    {
        match self {
            AddrOfMacro::AddrOf => "ptr::addr_of",
            AddrOfMacro::AddrOfMut => "ptr::addr_of_mut",
        }
    }
}

/// The text that replaces the whole cast: the macro applied to the place.
pub open spec fn replacement_text(m: AddrOfMacro, place: Seq<char>) -> Seq<char> {
    macro_path(m) + "!("@ + place + ")"@
}

/// The pattern of the lint: `&place as *const _` or `&mut place as *mut _`,
/// giving the macro to suggest and the place.
pub open spec fn ref_to_ptr_cast(e: Expr) -> Option<(AddrOfMacro, Expr)> {
    match e.kind {
        ExprKind::Cast(operand, ty) => match (operand.kind, ty) {
            (ExprKind::AddrOf(Mutability::Not, place), Ty::Ptr(Mutability::Not, _)) => Some(
                (AddrOfMacro::AddrOf, *place),
            ),
            (ExprKind::AddrOf(Mutability::Mut, place), Ty::Ptr(Mutability::Mut, _)) => Some(
                (AddrOfMacro::AddrOfMut, *place),
            ),
            _ => None,
        },
        _ => None,
    }
}

/// What a diagnostic says, as plain values.
pub struct DiagnosticView {
    pub level: Level,
    pub message: Seq<char>,
    pub span: Span,
    pub suggestion: AddrOfMacro,
    pub place: Span,
    pub replacement: Seq<char>,
}

/// The diagnostic the lint reports for `e`, if any. Nothing is reported for
/// code that comes from a macro expansion.
pub open spec fn diagnostic_of(e: Expr) -> Option<DiagnosticView> {
    if e.span.from_expansion {
        None
    } else {
        match ref_to_ptr_cast(e) {
            Some((m, place)) => Some(
                DiagnosticView {
                    level: Level::Style,
                    message: LINT_MSG@,
                    span: e.span,
                    suggestion: m,
                    place: place.span,
                    replacement: replacement_text(m, place.source@),
                },
            ),
            None => None,
        }
    }
}

/// A report of the lint: the cast at `span` should become `replacement`.
#[derive(Debug)]
pub struct Diagnostic {
    pub level: Level,
    pub message: &'static str,
    pub span: Span,
    pub suggestion: AddrOfMacro,
    pub place: Span,
    pub replacement: String,
}

impl View for Diagnostic {
    type V = DiagnosticView;

    open spec fn view(&self) -> DiagnosticView {
        DiagnosticView {
            level: self.level,
            message: self.message@,
            span: self.span,
            suggestion: self.suggestion,
            place: self.place,
            replacement: self.replacement@,
        }
    }
}

pub open spec fn option_view(d: Option<Diagnostic>) -> Option<DiagnosticView> {
    match d {
        Some(d) => Some(d@),
        None => None,
    }
}

/// Relies on `String::push_str`: appends the characters of `t` to `s`.
#[verifier::external_body]
fn append(s: &mut String, t: &str)
    ensures
        final(s)@ == old(s)@ + t@,
{
    s.push_str(t)
}

/// Builds the text `path!(place)` that replaces a flagged cast.
pub fn render_replacement(m: AddrOfMacro, place: &str) -> (r: String)
    ensures
        r@ == replacement_text(m, place@),
{
    let mut r = String::new();
    append(&mut r, m.path());
    append(&mut r, "!(");
    append(&mut r, place);
    append(&mut r, ")");
    r
}

/// Matches `e` against the lint's pattern, returning the macro to suggest and
/// the place whose address is taken.
pub fn match_ref_to_ptr_cast(e: &Expr) -> (r: Option<(AddrOfMacro, &Expr)>)
    ensures
        match r {
            Some((m, place)) => ref_to_ptr_cast(*e) == Some((m, *place)),
            None => ref_to_ptr_cast(*e) is None,
        },
{
    match &e.kind {
        ExprKind::Cast(operand, ty) => match (&operand.kind, ty) {
            (ExprKind::AddrOf(Mutability::Not, place), Ty::Ptr(Mutability::Not, _)) => Some(
                (AddrOfMacro::AddrOf, &**place),
            ),
            (ExprKind::AddrOf(Mutability::Mut, place), Ty::Ptr(Mutability::Mut, _)) => Some(
                (AddrOfMacro::AddrOfMut, &**place),
            ),
            _ => None,
        },
        _ => None,
    }
}

/// The diagnostic for `e`, or `None` where the lint does not apply.
pub fn detect(e: &Expr) -> (r: Option<Diagnostic>)
    ensures
        option_view(r) == diagnostic_of(*e),
{
    if e.span.in_macro() {
        return None;
    }
    match match_ref_to_ptr_cast(e) {
        Some((m, place)) => Some(
            Diagnostic {
                level: Level::Style,
                message: LINT_MSG,
                span: e.span,
                suggestion: m,
                place: place.span,
                replacement: render_replacement(m, place.source.as_str()),
            },
        ),
        None => None,
    }
}

/// The host's reporting sink: the diagnostics emitted so far, in order.
#[derive(Debug)]
pub struct LintContext {
    pub diagnostics: Vec<Diagnostic>,
}

impl View for LintContext {
    type V = Seq<DiagnosticView>;

    open spec fn view(&self) -> Seq<DiagnosticView> {
        self.diagnostics@.map_values(|d: Diagnostic| d@)
    }
}

impl LintContext {
    /// A sink with nothing reported yet.
    pub fn new() -> (r: LintContext)
        ensures
            r@ == Seq::<DiagnosticView>::empty(),
    {
        let r = LintContext { diagnostics: Vec::new() };
        assert(r@ =~= Seq::<DiagnosticView>::empty());
        r
    }

    /// Reports one diagnostic.
    pub fn emit(&mut self, d: Diagnostic)
        ensures
            final(self)@ == old(self)@.push(d@),
    {
        let ghost dv = d@;
        self.diagnostics.push(d);
        assert(self@ =~= old(self)@.push(dv));
    }
}

/// The lint pass. It keeps no state between expressions.
#[derive(Clone, Copy, Debug, Default)]
pub struct PreferAddr;

impl PreferAddr {
    pub fn new() -> (r: PreferAddr)
        ensures
            r == PreferAddr,
    {
        PreferAddr
    }

    /// Checks one expression node: reports exactly one diagnostic where the
    /// lint applies, and nothing otherwise.
    pub fn check_expr(&mut self, cx: &mut LintContext, expr: &Expr)
        ensures
            *final(self) == *old(self),
            match diagnostic_of(*expr) {
                Some(d) => final(cx)@ == old(cx)@.push(d),
                None => final(cx)@ == old(cx)@,
            },
    {
        match detect(expr) {
            Some(d) => cx.emit(d),
            None => {},
        }
    }
}

/// `&place as *const T` outside a macro expansion is reported once, with
/// `ptr::addr_of!(place)` as the replacement of the whole cast.
pub proof fn lemma_shared_ref_cast_reported(e: Expr, place: Expr)
    requires
        !e.span.from_expansion,
        e.kind matches ExprKind::Cast(operand, ty) && ty matches Ty::Ptr(Mutability::Not, _)
            && operand.kind matches ExprKind::AddrOf(Mutability::Not, inner) && *inner == place,
    ensures
        diagnostic_of(e) == Some(
            DiagnosticView {
                level: Level::Style,
                message: LINT_MSG@,
                span: e.span,
                suggestion: AddrOfMacro::AddrOf,
                place: place.span,
                replacement: replacement_text(AddrOfMacro::AddrOf, place.source@),
            },
        ),
{
}

/// `&mut place as *mut T` outside a macro expansion is reported once, with
/// `ptr::addr_of_mut!(place)` as the replacement of the whole cast.
pub proof fn lemma_mut_ref_cast_reported(e: Expr, place: Expr)
    requires
        !e.span.from_expansion,
        e.kind matches ExprKind::Cast(operand, ty) && ty matches Ty::Ptr(Mutability::Mut, _)
            && operand.kind matches ExprKind::AddrOf(Mutability::Mut, inner) && *inner == place,
    ensures
        diagnostic_of(e) == Some(
            DiagnosticView {
                level: Level::Style,
                message: LINT_MSG@,
                span: e.span,
                suggestion: AddrOfMacro::AddrOfMut,
                place: place.span,
                replacement: replacement_text(AddrOfMacro::AddrOfMut, place.source@),
            },
        ),
{
}

/// An expression that is neither `&place as *const T` nor `&mut place as *mut T`
/// (a cast of an existing pointer, of a value, to a non-pointer type, or no
/// cast at all) is never reported.
pub proof fn lemma_other_shapes_not_reported(e: Expr)
    requires
        ref_to_ptr_cast(e) is None,
    ensures
        diagnostic_of(e) is None,
{
}

/// Nothing that comes from a macro expansion is reported, whatever its shape.
pub proof fn lemma_macro_expansion_not_reported(e: Expr)
    requires
        e.span.from_expansion,
    ensures
        diagnostic_of(e) is None,
{
}

/// The outcome depends on the expression alone: checking the same node
/// twice gives the same diagnostic, or none both times.
pub proof fn lemma_detection_deterministic(e1: Expr, e2: Expr)
    requires
        e1 == e2,
    ensures
        diagnostic_of(e1) == diagnostic_of(e2),
{
}

} // verus!
