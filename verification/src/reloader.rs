//! The render side of the pipeline: keep the latest bundle, have it
//! compiled, and swap the active program in only on success.
//!
//! Compiling needs the graphics context of the render thread, so the caller
//! does it. This module decides what is compiled and what becomes of the
//! result.

use crate::bundle::{
    optional_view, request_for, request_view, BundleView, CompileRequest, RequestView,
    ShaderBundle,
};
use vstd::prelude::*;

verus! {

/// glium's error for a program that could not be built. Nothing of its inside
/// is known here.
#[verifier::external_type_specification]
#[verifier::external_body]
pub struct ExProgramCreationError(glium::ProgramCreationError);

/// The message of a `glium::ProgramCreationError`, as its `Display` impl
/// writes it: a fixed description of the kind of failure, followed for
/// compile and link errors by the driver's log. The description is never
/// empty, and that is all this contract claims; the wording itself is not
/// proved here.
#[verifier::external_body]
fn diagnostic_text(error: &glium::ProgramCreationError) -> (text: String)
    ensures
        text@.len() > 0,
{
    error.to_string()
}

/// How one poll of the reloader ended.
#[derive(Clone, Debug, PartialEq, Eq)]
pub enum ReloadOutcome {
    /// Nothing to compile: no bundle had arrived, or the latest one lacked
    /// vertex or fragment text.
    Unchanged,
    /// The latest bundle compiled and its program is now the active one.
    Reloaded,
    /// The latest bundle did not compile. The active program is the one from
    /// before; the text says what was wrong.
    Failed(String),
}

/// An outcome as contracts see it.
pub enum OutcomeView {
    Unchanged,
    Reloaded,
    Failed(Seq<char>),
}

impl View for ReloadOutcome {
    type V = OutcomeView;

    open spec fn view(&self) -> OutcomeView {
        match self {
            ReloadOutcome::Unchanged => OutcomeView::Unchanged,
            ReloadOutcome::Reloaded => OutcomeView::Reloaded,
            ReloadOutcome::Failed(text) => OutcomeView::Failed(text@),
        }
    }
}

/// The bundles that wait to be looked at, as contracts see them.
pub open spec fn bundle_views(pending: Seq<ShaderBundle>) -> Seq<BundleView> {
    pending.map_values(|bundle: ShaderBundle| bundle@)
}

/// The bundle that a poll keeps of those that wait, oldest first: the newest,
/// or none where none waits.
pub open spec fn latest(pending: Seq<BundleView>) -> Option<BundleView> {
    if pending.len() == 0 {
        None
    } else {
        Some(pending.last())
    }
}

/// What a poll has compiled: the newest waiting bundle if it holds vertex
/// and fragment text, else nothing.
pub open spec fn planned(pending: Seq<BundleView>) -> Option<RequestView> {
    match latest(pending) {
        Some(bundle) => request_for(bundle),
        None => None,
    }
}

/// What one poll makes of the queue: the bundle it keeps, and the queue it
/// leaves behind, which is empty.
pub open spec fn drained(pending: Seq<BundleView>) -> (Option<BundleView>, Seq<BundleView>) {
    (latest(pending), Seq::<BundleView>::empty())
}

/// Empties the queue of waiting bundles and keeps the newest. `pending` holds
/// the bundles in the order in which they arrived.
pub fn drain_latest(pending: &mut Vec<ShaderBundle>) -> (kept: Option<ShaderBundle>)
    ensures
        final(pending)@.len() == 0,
        (optional_view(kept), bundle_views(final(pending)@)) == drained(bundle_views(old(pending)@)),
{
    let kept = pending.pop();
    pending.clear();
    assert(bundle_views(pending@) =~= Seq::<BundleView>::empty());
    kept
}

/// The first half of a poll: drains the queue and says what is to be
/// compiled, if anything.
pub fn plan_reload(pending: &mut Vec<ShaderBundle>) -> (request: Option<CompileRequest>)
    ensures
        final(pending)@.len() == 0,
        request_view(request) == planned(bundle_views(old(pending)@)),
{
    match drain_latest(pending) {
        Some(bundle) => bundle.into_request(),
        None => None,
    }
}

/// The second half of a poll, for a compiler that reports failure as text.
/// A program replaces the active one; a failure leaves it as it is and is
/// handed on.
pub fn settle<P>(active: &mut P, compiled: Result<P, String>) -> (outcome: ReloadOutcome)
    ensures
        match compiled {
            Ok(program) => outcome@ == OutcomeView::Reloaded && *final(active) == program,
            Err(text) => outcome@ == OutcomeView::Failed(text@) && *final(active) == *old(active),
        },
{
    match compiled {
        Ok(program) => {
            *active = program;
            ReloadOutcome::Reloaded
        },
        Err(text) => ReloadOutcome::Failed(text),
    }
}

/// The second half of a poll, for glium's compiler. A program replaces the
/// active one. A failure leaves the active program as it is and comes back
/// as `Failed` with glium's message for it, which is never empty.
pub fn apply_compiled<P>(
    active: &mut P,
    compiled: Result<P, glium::ProgramCreationError>,
) -> (outcome: ReloadOutcome)
    ensures
        match compiled {
            Ok(program) => outcome@ == OutcomeView::Reloaded && *final(active) == program,
            Err(_) => {
                &&& outcome@ is Failed
                &&& outcome@->Failed_0.len() > 0
                &&& *final(active) == *old(active)
            },
        },
{
    match compiled {
        Ok(program) => settle(active, Ok(program)),
        Err(error) => {
            let text = diagnostic_text(&error);
            settle(active, Err(text))
        },
    }
}

/// What a poll reports of text that holds a zero byte.
pub open spec fn nul_diagnostic() -> Seq<char> {
    "the shader source holds a NUL character"@
}

/// The report on text that holds a zero byte.
fn refuse_nul() -> (text: String)
    ensures
        text@ == nul_diagnostic(),
        text@.len() > 0,
{
    proof {
        reveal_strlit("the shader source holds a NUL character");
    }
    "the shader source holds a NUL character".to_owned()
}

/// Whether `outcome` and `after` are what a poll leaves behind when the
/// compiler answered `compiled` while `before` was the active program.
pub open spec fn settled<P>(
    before: P,
    compiled: Result<P, glium::ProgramCreationError>,
    after: P,
    outcome: OutcomeView,
) -> bool {
    match compiled {
        Ok(program) => outcome == OutcomeView::Reloaded && after == program,
        Err(_) => outcome is Failed && outcome->Failed_0.len() > 0 && after == before,
    }
}

/// One poll of the reloader, once per frame. `pending` holds the bundles that
/// have arrived since the last poll, oldest first; `compile` is the graphics
/// backend's compiler.
///
/// The queue is emptied and only its newest bundle counts. If there is none,
/// or if it lacks vertex or fragment text, nothing is compiled and the
/// outcome is `Unchanged`. A bundle with a zero byte in its text is a
/// failure without the compiler being asked. Otherwise `compile` is called
/// once, on that bundle's text, and its answer decides: a program becomes the
/// active one, a failure leaves the active program as it is.
pub fn poll_and_apply<P, F>(
    pending: &mut Vec<ShaderBundle>,
    active: &mut P,
    compile: F,
) -> (outcome: ReloadOutcome) where
    F: FnOnce(CompileRequest) -> Result<P, glium::ProgramCreationError>,

    requires
        forall|request: CompileRequest|
            planned(bundle_views(old(pending)@)) == Some(request@) && !request@.holds_nul()
                ==> compile.requires((request,)),
    ensures
        final(pending)@.len() == 0,
        outcome@ is Failed ==> outcome@->Failed_0.len() > 0,
        !(outcome@ is Reloaded) ==> *final(active) == *old(active),
        match planned(bundle_views(old(pending)@)) {
            None => outcome@ == OutcomeView::Unchanged && *final(active) == *old(active),
            Some(wanted) => if wanted.holds_nul() {
                outcome@ == OutcomeView::Failed(nul_diagnostic()) && *final(active) == *old(active)
            } else {
                exists|request: CompileRequest, compiled: Result<P, glium::ProgramCreationError>|
                    {
                        &&& request@ == wanted
                        &&& compile.ensures((request,), compiled)
                        &&& settled(*old(active), compiled, *final(active), outcome@)
                    }
            },
        },
{
    match plan_reload(pending) {
        None => ReloadOutcome::Unchanged,
        Some(request) => {
            if request.holds_nul() {
                return ReloadOutcome::Failed(refuse_nul());
            }
            let ghost asked = request;
            let compiled = compile(request);
            let ghost before = *active;
            let outcome = apply_compiled(active, compiled);
            assert(compile.ensures((asked,), compiled) && settled(
                before,
                compiled,
                *active,
                outcome@,
            ));
            outcome
        },
    }
}

/// Why no first program could be had.
#[derive(Clone, Debug, PartialEq, Eq)]
pub enum StartupError {
    /// The first bundle lacks vertex or fragment text.
    Incomplete,
    /// The first bundle did not compile; the text says why.
    Compile(String),
}

/// The first activation, before any frame is drawn: compiles the first
/// bundle that the watcher sent. There is no earlier program to fall back to,
/// so an incomplete bundle, text with a zero byte in it or a compile failure
/// is an error, and the caller must not start drawing.
pub fn activate<P, F>(first: ShaderBundle, compile: F) -> (started: Result<P, StartupError>) where
    F: FnOnce(CompileRequest) -> Result<P, glium::ProgramCreationError>,

    requires
        forall|request: CompileRequest|
            request_for(first@) == Some(request@) && !request@.holds_nul() ==> compile.requires(
                (request,),
            ),
    ensures
        started matches Err(StartupError::Compile(text)) ==> text@.len() > 0,
        match request_for(first@) {
            None => started == Err::<P, StartupError>(StartupError::Incomplete),
            Some(wanted) => if wanted.holds_nul() {
                started matches Err(StartupError::Compile(text)) && text@ == nul_diagnostic()
            } else {
                exists|request: CompileRequest, compiled: Result<P, glium::ProgramCreationError>|
                    {
                        &&& request@ == wanted
                        &&& compile.ensures((request,), compiled)
                        &&& match compiled {
                            Ok(program) => started == Ok::<P, StartupError>(program),
                            Err(_) => started matches Err(StartupError::Compile(text))
                                && text@.len() > 0,
                        }
                    }
            },
        },
{
    match first.into_request() {
        None => Err(StartupError::Incomplete),
        Some(request) => {
            if request.holds_nul() {
                return Err(StartupError::Compile(refuse_nul()));
            }
            let ghost asked = request;
            let compiled = compile(request);
            let started = match compiled {
                Ok(program) => Ok(program),
                Err(error) => Err(StartupError::Compile(diagnostic_text(&error))),
            };
            assert(compile.ensures((asked,), compiled));
            started
        },
    }
}

/// Drain to latest: however many bundles have queued up, the next poll keeps
/// exactly the newest of them, and the poll after it, with nothing new
/// queued, keeps nothing.
pub proof fn law_drain_to_latest(pending: Seq<BundleView>)
    requires
        pending.len() > 0,
    ensures
        drained(pending).0 == Some(pending[pending.len() - 1]),
        drained(drained(pending).1).0 is None,
{
}

} // verus!
