//! The order of a run. A run goes through its stages one by one: at each
//! stage the driver performs the stage's action, then reports the
//! outcome as an event, and the event decides which stage follows.

use vstd::prelude::*;
use vstd::string::*;
use crate::command::{
    build_command, checkout_command, clean_command, clone_command, fetch_command,
    spec_build_command, spec_checkout_command, spec_clean_command, spec_clone_command,
    spec_fetch_command, texts, Invocation, InvocationView,
};
use crate::layout::{
    built_wasm_path, digest_path, digests_dir, source_dir, spec_built_wasm_path,
    spec_digest_path, spec_digests_dir, spec_source_dir, spec_wasm_path, spec_wasms_dir,
    wasm_path, wasms_dir,
};
use crate::request::BuildRequest;
use crate::runtime::Runtime;

verus! {

/// Where a run stands.
#[derive(Clone, Copy, Debug, PartialEq, Eq, Structural)]
pub enum Stage {
    /// Is there a clone of the repository already?
    ProbeSource,
    /// Clone the repository.
    CloneSource,
    /// Fetch every remote of the clone.
    FetchRefs,
    /// Check out the target.
    Checkout,
    /// Remove what an earlier build of the runtime package left.
    CleanPackage,
    /// Build the runtime.
    BuildRuntime,
    /// Is there a directory for compiled runtimes already?
    ProbeWasmsDir,
    /// Make the directory for compiled runtimes.
    CreateWasmsDir,
    /// Is there a directory for digests already?
    ProbeDigestsDir,
    /// Make the directory for digests.
    CreateDigestsDir,
    /// Move the compiled runtime to where it is kept.
    Relocate,
    /// Read the compiled runtime and write its digest.
    WriteDigest,
    /// Tell where the two files are.
    Report,
    /// The run has done all it had to do.
    Done,
    /// The run was given up.
    Failed,
}

/// How the action of a stage went.
#[derive(Clone, Copy, Debug, PartialEq, Eq, Structural)]
pub enum Event {
    /// What was probed for is there.
    Present,
    /// What was probed for is not there.
    Absent,
    /// The command was started and has come to its end.
    Exited { success: bool },
    /// The step was carried out.
    Completed,
    /// The command could not be started, or the step could not be
    /// carried out.
    Failed,
}

/// What the driver is to do at a stage.
#[derive(Clone, Debug, PartialEq, Eq)]
pub enum Action {
    /// Find out whether anything lies at `path`.
    Probe { path: String },
    /// Start `command` and wait for its end.
    Run { command: Invocation },
    /// Make the directory `path`, and those above it that are missing.
    CreateDirAll { path: String },
    /// Move the file `from` to `to`.
    Rename { from: String, to: String },
    /// Read the runtime information of the file `wasm` and write it, as
    /// JSON, to the file `digest`.
    WriteDigest { wasm: String, digest: String },
    /// Print `lines` to standard output, each on a line of its own.
    Report { lines: Vec<String> },
    /// End the run: it succeeded.
    Finish,
    /// End the run with the error that made it fail.
    Abort,
}

/// What an [`Action`] holds, as plain text.
pub enum ActionView {
    Probe { path: Seq<char> },
    Run { command: InvocationView },
    CreateDirAll { path: Seq<char> },
    Rename { from: Seq<char>, to: Seq<char> },
    WriteDigest { wasm: Seq<char>, digest: Seq<char> },
    Report { lines: Seq<Seq<char>> },
    Finish,
    Abort,
}

impl View for Action {
    type V = ActionView;

    open spec fn view(&self) -> ActionView {
        match self {
            Action::Probe { path } => ActionView::Probe { path: path@ },
            Action::Run { command } => ActionView::Run { command: command@ },
            Action::CreateDirAll { path } => ActionView::CreateDirAll { path: path@ },
            Action::Rename { from, to } => ActionView::Rename { from: from@, to: to@ },
            Action::WriteDigest { wasm, digest } => ActionView::WriteDigest {
                wasm: wasm@,
                digest: digest@,
            },
            Action::Report { lines } => ActionView::Report { lines: texts(lines@) },
            Action::Finish => ActionView::Finish,
            Action::Abort => ActionView::Abort,
        }
    }
}

impl Stage {
    /// The stage a run begins at.
    pub open spec fn spec_first() -> Stage {
        Stage::ProbeSource
    }

    /// Whether the run is over at this stage.
    pub open spec fn spec_is_final(self) -> bool {
        self == Stage::Done || self == Stage::Failed
    }

    /// Whether the stage asks if something is there. The stage after it
    /// makes what is missing.
    pub open spec fn spec_is_probe(self) -> bool {
        self == Stage::ProbeSource || self == Stage::ProbeWasmsDir || self
            == Stage::ProbeDigestsDir
    }

    /// Whether the stage runs a command.
    pub open spec fn spec_is_command(self) -> bool {
        self == Stage::CloneSource || self == Stage::FetchRefs || self == Stage::Checkout
            || self == Stage::CleanPackage || self == Stage::BuildRuntime
    }

    /// The stage that stands behind this one in the order of a run.
    pub open spec fn spec_successor(self) -> Stage {
        match self {
            Stage::ProbeSource => Stage::CloneSource,
            Stage::CloneSource => Stage::FetchRefs,
            Stage::FetchRefs => Stage::Checkout,
            Stage::Checkout => Stage::CleanPackage,
            Stage::CleanPackage => Stage::BuildRuntime,
            Stage::BuildRuntime => Stage::ProbeWasmsDir,
            Stage::ProbeWasmsDir => Stage::CreateWasmsDir,
            Stage::CreateWasmsDir => Stage::ProbeDigestsDir,
            Stage::ProbeDigestsDir => Stage::CreateDigestsDir,
            Stage::CreateDigestsDir => Stage::Relocate,
            Stage::Relocate => Stage::WriteDigest,
            Stage::WriteDigest => Stage::Report,
            Stage::Report => Stage::Done,
            Stage::Done => Stage::Done,
            Stage::Failed => Stage::Failed,
        }
    }

    /// How far along a run the stage is.
    pub open spec fn spec_position(self) -> nat {
        match self {
            Stage::ProbeSource => 0,
            Stage::CloneSource => 1,
            Stage::FetchRefs => 2,
            Stage::Checkout => 3,
            Stage::CleanPackage => 4,
            Stage::BuildRuntime => 5,
            Stage::ProbeWasmsDir => 6,
            Stage::CreateWasmsDir => 7,
            Stage::ProbeDigestsDir => 8,
            Stage::CreateDigestsDir => 9,
            Stage::Relocate => 10,
            Stage::WriteDigest => 11,
            Stage::Report => 12,
            Stage::Done => 13,
            Stage::Failed => 14,
        }
    }

    /// The stage that follows this one on `event`.
    ///
    /// A run that is over stays as it is. A probe that finds what it asks
    /// for passes over the stage that would make it. A command that was
    /// started counts as done, whatever it exited with. Any other step
    /// has to be carried out. An event that tells of a failure, or that
    /// does not answer the stage's action, ends the run.
    pub open spec fn spec_next(self, event: Event) -> Stage {
        if self.spec_is_final() {
            self
        } else if self.spec_is_probe() {
            match event {
                Event::Present => self.spec_successor().spec_successor(),
                Event::Absent => self.spec_successor(),
                _ => Stage::Failed,
            }
        } else if self.spec_is_command() {
            match event {
                Event::Exited { .. } => self.spec_successor(),
                _ => Stage::Failed,
            }
        } else {
            match event {
                Event::Completed => self.spec_successor(),
                _ => Stage::Failed,
            }
        }
    }

    /// The stage that a run which began at `self` has come to when the
    /// driver has reported `events`, in this order.
    pub open spec fn spec_after(self, events: Seq<Event>) -> Stage
        decreases events.len(),
    {
        if events.len() == 0 {
            self
        } else {
            self.spec_after(events.drop_last()).spec_next(events.last())
        }
    }

    /// The stage a run begins at.
    pub fn first() -> (s: Stage)
        ensures
            s == Stage::spec_first(),
    {
        Stage::ProbeSource
    }

    /// Whether the run is over at this stage.
    pub fn is_final(self) -> (b: bool)
        ensures
            b == self.spec_is_final(),
    {
        match self {
            Stage::Done | Stage::Failed => true,
            _ => false,
        }
    }

    /// The stage that follows this one on `event`.
    pub fn next(self, event: Event) -> (s: Stage)
        ensures
            s == self.spec_next(event),
    {
        match self {
            Stage::ProbeSource => after_probe(event, Stage::CloneSource, Stage::FetchRefs),
            Stage::CloneSource => after_command(event, Stage::FetchRefs),
            Stage::FetchRefs => after_command(event, Stage::Checkout),
            Stage::Checkout => after_command(event, Stage::CleanPackage),
            Stage::CleanPackage => after_command(event, Stage::BuildRuntime),
            Stage::BuildRuntime => after_command(event, Stage::ProbeWasmsDir),
            Stage::ProbeWasmsDir => after_probe(
                event,
                Stage::CreateWasmsDir,
                Stage::ProbeDigestsDir,
            ),
            Stage::CreateWasmsDir => after_step(event, Stage::ProbeDigestsDir),
            Stage::ProbeDigestsDir => after_probe(event, Stage::CreateDigestsDir, Stage::Relocate),
            Stage::CreateDigestsDir => after_step(event, Stage::Relocate),
            Stage::Relocate => after_step(event, Stage::WriteDigest),
            Stage::WriteDigest => after_step(event, Stage::Report),
            Stage::Report => after_step(event, Stage::Done),
            Stage::Done => Stage::Done,
            Stage::Failed => Stage::Failed,
        }
    }
}

fn after_probe(event: Event, missing: Stage, found: Stage) -> (s: Stage)
    ensures
        s == match event {
            Event::Present => found,
            Event::Absent => missing,
            _ => Stage::Failed,
        },
{
    match event {
        Event::Present => found,
        Event::Absent => missing,
        _ => Stage::Failed,
    }
}

fn after_command(event: Event, then: Stage) -> (s: Stage)
    ensures
        s == match event {
            Event::Exited { .. } => then,
            _ => Stage::Failed,
        },
{
    match event {
        Event::Exited { .. } => then,
        _ => Stage::Failed,
    }
}

fn after_step(event: Event, then: Stage) -> (s: Stage)
    ensures
        s == match event {
            Event::Completed => then,
            _ => Stage::Failed,
        },
{
    match event {
        Event::Completed => then,
        _ => Stage::Failed,
    }
}

/// The two lines that tell where the compiled runtime and its digest are.
pub open spec fn spec_report_lines(v: Runtime, target: Seq<char>) -> Seq<Seq<char>> {
    seq![
        "Generated WASM:   "@ + spec_wasm_path(v, target),
        "Generated digest: "@ + spec_digest_path(v, target),
    ]
}

/// What the driver is to do at `stage` of a run for chain `v` and
/// `target`.
pub open spec fn spec_action(v: Runtime, target: Seq<char>, stage: Stage) -> ActionView {
    match stage {
        Stage::ProbeSource => ActionView::Probe { path: spec_source_dir(v) },
        Stage::CloneSource => ActionView::Run { command: spec_clone_command(v) },
        Stage::FetchRefs => ActionView::Run { command: spec_fetch_command(v) },
        Stage::Checkout => ActionView::Run { command: spec_checkout_command(v, target) },
        Stage::CleanPackage => ActionView::Run { command: spec_clean_command(v) },
        Stage::BuildRuntime => ActionView::Run { command: spec_build_command(v) },
        Stage::ProbeWasmsDir => ActionView::Probe { path: spec_wasms_dir(v) },
        Stage::CreateWasmsDir => ActionView::CreateDirAll { path: spec_wasms_dir(v) },
        Stage::ProbeDigestsDir => ActionView::Probe { path: spec_digests_dir(v) },
        Stage::CreateDigestsDir => ActionView::CreateDirAll { path: spec_digests_dir(v) },
        Stage::Relocate => ActionView::Rename {
            from: spec_built_wasm_path(v),
            to: spec_wasm_path(v, target),
        },
        Stage::WriteDigest => ActionView::WriteDigest {
            wasm: spec_wasm_path(v, target),
            digest: spec_digest_path(v, target),
        },
        Stage::Report => ActionView::Report { lines: spec_report_lines(v, target) },
        Stage::Done => ActionView::Finish,
        Stage::Failed => ActionView::Abort,
    }
}

/// The two lines that tell where the compiled runtime and its digest are.
pub fn report_lines(request: &BuildRequest) -> (lines: Vec<String>)
    ensures
        texts(lines@) == spec_report_lines(request.runtime, request.target@),
{
    let wasm = wasm_path(request);
    let digest = digest_path(request);
    let mut lines: Vec<String> = Vec::new();
    lines.push(String::from_str("Generated WASM:   ").concat(wasm.as_str()));
    lines.push(String::from_str("Generated digest: ").concat(digest.as_str()));
    assert(texts(lines@) =~= spec_report_lines(request.runtime, request.target@));
    lines
}

/// What the driver is to do at `stage` of the run for `request`.
pub fn action(request: &BuildRequest, stage: Stage) -> (a: Action)
    ensures
        a@ == spec_action(request.runtime, request.target@, stage),
{
    let runtime = request.runtime;
    match stage {
        Stage::ProbeSource => Action::Probe { path: source_dir(runtime) },
        Stage::CloneSource => Action::Run { command: clone_command(runtime) },
        Stage::FetchRefs => Action::Run { command: fetch_command(runtime) },
        Stage::Checkout => Action::Run { command: checkout_command(request) },
        Stage::CleanPackage => Action::Run { command: clean_command(runtime) },
        Stage::BuildRuntime => Action::Run { command: build_command(runtime) },
        Stage::ProbeWasmsDir => Action::Probe { path: wasms_dir(runtime) },
        Stage::CreateWasmsDir => Action::CreateDirAll { path: wasms_dir(runtime) },
        Stage::ProbeDigestsDir => Action::Probe { path: digests_dir(runtime) },
        Stage::CreateDigestsDir => Action::CreateDirAll { path: digests_dir(runtime) },
        Stage::Relocate => Action::Rename {
            from: built_wasm_path(runtime),
            to: wasm_path(request),
        },
        Stage::WriteDigest => Action::WriteDigest {
            wasm: wasm_path(request),
            digest: digest_path(request),
        },
        Stage::Report => Action::Report { lines: report_lines(request) },
        Stage::Done => Action::Finish,
        Stage::Failed => Action::Abort,
    }
}

/// The stage after `k` events follows, on the last of them, the stage
/// after the `k - 1` events before it.
pub proof fn after_unfolds(start: Stage, events: Seq<Event>, k: int)
    requires
        0 < k <= events.len(),
    ensures
        start.spec_after(events.take(k)) == start.spec_after(events.take(k - 1)).spec_next(
            events[k - 1],
        ),
{
    assert(events.take(k).drop_last() =~= events.take(k - 1));
    assert(events.take(k).last() == events[k - 1]);
}

/// No event takes a run back to a stage it has passed.
pub proof fn next_never_goes_back(stage: Stage, event: Event)
    ensures
        stage.spec_next(event).spec_position() >= stage.spec_position(),
        !stage.spec_is_final() ==> stage.spec_next(event).spec_position() > stage.spec_position(),
{
}

/// Only the stage that clones asks for the clone command.
pub proof fn only_clone_stage_clones(v: Runtime, target: Seq<char>, stage: Stage)
    requires
        spec_action(v, target, stage) == (ActionView::Run { command: spec_clone_command(v) }),
    ensures
        stage == Stage::CloneSource,
{
    reveal_strlit("git");
    reveal_strlit("cargo");
    if stage == Stage::FetchRefs {
        assert(spec_fetch_command(v).dir is Some);
    }
    if stage == Stage::Checkout {
        assert(spec_checkout_command(v, target).dir is Some);
    }
    if stage == Stage::CleanPackage {
        assert(spec_clean_command(v).program[0] == 'c');
    }
    if stage == Stage::BuildRuntime {
        assert(spec_build_command(v).program[0] == 'c');
    }
}

/// Where the first probe finds a clone in place, the run never comes
/// to the stage that clones, and never asks for the clone command,
/// whatever is reported afterwards.
pub proof fn found_source_is_not_cloned(
    v: Runtime,
    target: Seq<char>,
    events: Seq<Event>,
    k: int,
)
    requires
        events.len() > 0,
        events[0] == Event::Present,
        0 <= k <= events.len(),
    ensures
        Stage::spec_first().spec_after(events.take(k)) != Stage::CloneSource,
        spec_action(v, target, Stage::spec_first().spec_after(events.take(k))) != (
        ActionView::Run { command: spec_clone_command(v) }),
{
    let stage = Stage::spec_first().spec_after(events.take(k));
    if k == 0 {
        assert(events.take(0).len() == 0);
    } else {
        passed_clone_stage(events, k);
    }
    if spec_action(v, target, stage) == (ActionView::Run { command: spec_clone_command(v) }) {
        only_clone_stage_clones(v, target, stage);
    }
}

/// After a first probe that found the clone, every later stage lies
/// behind the one that clones.
proof fn passed_clone_stage(events: Seq<Event>, k: int)
    requires
        events.len() > 0,
        events[0] == Event::Present,
        0 < k <= events.len(),
    ensures
        Stage::spec_first().spec_after(events.take(k)).spec_position()
            > Stage::CloneSource.spec_position(),
    decreases k,
{
    after_unfolds(Stage::spec_first(), events, k);
    let before = Stage::spec_first().spec_after(events.take(k - 1));
    if k == 1 {
        assert(events.take(0).len() == 0);
        assert(before == Stage::ProbeSource);
    } else {
        passed_clone_stage(events, k - 1);
        next_never_goes_back(before, events[k - 1]);
    }
}

/// What a command exited with does not change what follows: a command
/// that was started counts as done.
pub proof fn exit_status_is_not_looked_at(stage: Stage, a: bool, b: bool)
    ensures
        stage.spec_next(Event::Exited { success: a }) == stage.spec_next(
            Event::Exited { success: b },
        ),
        stage.spec_is_command() ==> stage.spec_next(Event::Exited { success: a })
            == stage.spec_successor(),
{
}

/// A run that is over stays as it is, whatever is reported to it.
pub proof fn final_stage_stays(stage: Stage, events: Seq<Event>)
    requires
        stage.spec_is_final(),
    ensures
        stage.spec_after(events) == stage,
    decreases events.len(),
{
    if events.len() > 0 {
        final_stage_stays(stage, events.drop_last());
    }
}

/// A failure ends the run: from any stage but the last, a reported
/// failure leads to `Failed`, where the run stays and all that is left to
/// do is to give up.
pub proof fn failure_ends_the_run(
    v: Runtime,
    target: Seq<char>,
    stage: Stage,
    events: Seq<Event>,
    k: int,
)
    requires
        stage != Stage::Done,
        events.len() > 0,
        events[0] == Event::Failed,
        0 < k <= events.len(),
    ensures
        stage.spec_after(events.take(k)) == Stage::Failed,
        spec_action(v, target, stage.spec_after(events.take(k))) == ActionView::Abort,
    decreases k,
{
    after_unfolds(stage, events, k);
    if k == 1 {
        assert(events.take(0).len() == 0);
    } else {
        failure_ends_the_run(v, target, stage, events, k - 1);
    }
}

/// Where the compiled runtime cannot be moved into place, for one
/// because the build has left none, no digest is written: the run asks
/// for nothing more than to give up.
pub proof fn failed_relocation_writes_no_digest(
    v: Runtime,
    target: Seq<char>,
    events: Seq<Event>,
    k: int,
)
    requires
        events.len() > 0,
        events[0] == Event::Failed,
        0 <= k <= events.len(),
    ensures
        !(spec_action(v, target, Stage::Relocate.spec_after(events.take(k))) is WriteDigest),
{
    if k == 0 {
        assert(events.take(0).len() == 0);
    } else {
        failure_ends_the_run(v, target, Stage::Relocate, events, k);
    }
}

/// A run comes to write the digest only from the stage that moves the
/// compiled runtime, and only when that move was carried out.
pub proof fn digest_follows_relocation(events: Seq<Event>, k: int)
    requires
        0 <= k <= events.len(),
        Stage::spec_first().spec_after(events.take(k)) == Stage::WriteDigest,
    ensures
        k > 0,
        events[k - 1] == Event::Completed,
        Stage::spec_first().spec_after(events.take(k - 1)) == Stage::Relocate,
{
    if k == 0 {
        assert(events.take(0).len() == 0);
    } else {
        after_unfolds(Stage::spec_first(), events, k);
    }
}

/// What a run asks for at a stage is fixed by the chain and the target:
/// two requests that agree on both are served by the same actions.
pub proof fn same_request_same_actions(a: BuildRequest, b: BuildRequest, stage: Stage)
    requires
        a.runtime == b.runtime,
        a.target@ == b.target@,
    ensures
        spec_action(a.runtime, a.target@, stage) == spec_action(b.runtime, b.target@, stage),
{
}

} // verus!
