//! The command surface and its lock discipline.
//!
//! Every command takes the locks of the slots it works on in phases. Within
//! a phase the locks are taken one after the other in a fixed global order
//! and held together; between phases nothing is held. A [`CommandFlow`]
//! leads the embedding program through the phases of one command: it says
//! which lock to take, when to do the work of a phase, when to release, and
//! how the command ends. Many flows may be under way at once.

use vstd::prelude::*;

use crate::error::{FaceError, SlotKind};

verus! {

/// The operations offered to the user interface.
#[derive(Clone, Copy, Debug, PartialEq, Eq, Structural)]
pub enum Command {
    InitializeModels,
    OpenCamera,
    CloseCamera,
    DetectFromImage,
    DetectFromCamera,
    VerifyFace,
    EnrollFace,
}

/// The phases of a command: for each phase the slots whose locks are held
/// together during it, in the order in which they are taken.
pub open spec fn lock_phases(command: Command) -> Seq<Seq<SlotKind>> {
    match command {
        Command::InitializeModels => seq![seq![SlotKind::Detector, SlotKind::Recognizer]],
        Command::OpenCamera => seq![seq![SlotKind::Camera]],
        Command::CloseCamera => seq![seq![SlotKind::Camera]],
        Command::DetectFromImage => seq![seq![SlotKind::Detector]],
        Command::DetectFromCamera => seq![seq![SlotKind::Camera], seq![SlotKind::Detector]],
        Command::VerifyFace => seq![
            seq![SlotKind::Camera],
            seq![SlotKind::Detector, SlotKind::Recognizer],
        ],
        Command::EnrollFace => seq![seq![SlotKind::Detector, SlotKind::Recognizer]],
    }
}

/// Whether a command works with the handles in its slots, and so fails on an
/// absent one. The other commands fill or empty their slots.
pub open spec fn needs_present(command: Command) -> bool {
    match command {
        Command::DetectFromImage => true,
        Command::DetectFromCamera => true,
        Command::VerifyFace => true,
        Command::EnrollFace => true,
        _ => false,
    }
}

/// Whether a command has nothing to do where its slot already holds a
/// handle. Opening the camera is such a command: an open camera stays as it
/// is.
pub open spec fn settled_when_present(command: Command) -> bool {
    command == Command::OpenCamera
}

/// Every command has work to do, never holds more than two locks at a time,
/// never holds the camera together with a model, and takes the locks of a
/// phase in strictly rising rank: the detector before the recogniser.
pub proof fn lemma_phases_ordered(command: Command)
    ensures
        1 <= lock_phases(command).len() <= 2,
        forall|p: int|
            0 <= p < lock_phases(command).len() ==> 1 <= (#[trigger] lock_phases(command)[p]).len()
                <= 2,
        forall|p: int, i: int, j: int|
            0 <= p < lock_phases(command).len() && 0 <= i < j < lock_phases(command)[p].len()
                ==> (#[trigger] lock_phases(command)[p][i]).rank() < (#[trigger] lock_phases(
                command,
            )[p][j]).rank(),
        forall|p: int, i: int|
            0 <= p < lock_phases(command).len() && 0 <= i < lock_phases(command)[p].len() && (
            #[trigger] lock_phases(command)[p][i]) == SlotKind::Camera ==> lock_phases(
                command,
            )[p].len() == 1,
{
}

impl Command {
    /// The phases of the command, as [`lock_phases`] gives them.
    pub fn lock_plan(&self) -> (r: Vec<Vec<SlotKind>>)
        ensures
            r@.len() == lock_phases(*self).len(),
            forall|p: int| 0 <= p < r@.len() ==> (#[trigger] r@[p])@ == lock_phases(*self)[p],
    {
        let mut plan: Vec<Vec<SlotKind>> = Vec::new();
        match self {
            Command::InitializeModels | Command::EnrollFace => {
                plan.push(models_phase());
            },
            Command::OpenCamera | Command::CloseCamera => {
                plan.push(single_phase(SlotKind::Camera));
            },
            Command::DetectFromImage => {
                plan.push(single_phase(SlotKind::Detector));
            },
            Command::DetectFromCamera => {
                plan.push(single_phase(SlotKind::Camera));
                plan.push(single_phase(SlotKind::Detector));
            },
            Command::VerifyFace => {
                plan.push(single_phase(SlotKind::Camera));
                plan.push(models_phase());
            },
        }
        plan
    }

    /// Whether the command has nothing to do on a slot that holds a handle.
    pub fn is_settled_when_present(&self) -> (r: bool)
        ensures
            r == settled_when_present(*self),
    {
        match self {
            Command::OpenCamera => true,
            _ => false,
        }
    }

    /// Whether the command fails on an absent slot.
    pub fn uses_handles(&self) -> (r: bool)
        ensures
            r == needs_present(*self),
    {
        match self {
            Command::DetectFromImage => true,
            Command::DetectFromCamera => true,
            Command::VerifyFace => true,
            Command::EnrollFace => true,
            _ => false,
        }
    }
}

fn single_phase(kind: SlotKind) -> (r: Vec<SlotKind>)
    ensures
        r@ == seq![kind],
{
    let mut phase: Vec<SlotKind> = Vec::new();
    phase.push(kind);
    phase
}

fn models_phase() -> (r: Vec<SlotKind>)
    ensures
        r@ == seq![SlotKind::Detector, SlotKind::Recognizer],
{
    let mut phase: Vec<SlotKind> = Vec::new();
    phase.push(SlotKind::Detector);
    phase.push(SlotKind::Recognizer);
    phase
}

/// What a flow is doing.
#[derive(Clone, Copy, Debug, PartialEq, Eq, Structural)]
pub enum FlowStage {
    /// Taking the locks of the current phase.
    Acquiring,
    /// Holding all locks of the current phase while its work is done.
    Working,
    /// Letting go of every lock it holds.
    Releasing,
    /// Ended, holding nothing.
    Finished,
}

/// What the embedding program reports to a flow.
#[derive(Clone, Copy, Debug, PartialEq, Eq)]
pub enum FlowEvent {
    /// The lock asked for was obtained; `present` says whether the slot
    /// behind it holds a handle.
    Acquired { present: bool },
    /// The work of the phase has ended, well or with an error.
    Performed(Result<(), FaceError>),
    /// All locks have been released.
    Released,
}

/// What a flow asks the embedding program to do.
#[derive(Clone, Copy, Debug, PartialEq, Eq)]
pub enum FlowAction {
    /// Take the lock of this slot for exclusive use, keeping those already
    /// held.
    Acquire(SlotKind),
    /// Do the work of this phase with the slots that are locked.
    Perform { phase: usize },
    /// Release every lock that is held.
    ReleaseAll,
    /// Hand this result to the caller; nothing is held any more.
    Finish(Result<(), FaceError>),
}

/// One command under way.
#[derive(Clone, Copy, Debug)]
pub struct CommandFlow {
    command: Command,
    phase: usize,
    held: usize,
    stage: FlowStage,
    failure: Option<FaceError>,
}

/// A [`CommandFlow`] as contracts see it: the command, the phase it is in,
/// how many locks of that phase it holds, what it is doing, and the error
/// it is going to end with, if any.
pub struct FlowView {
    pub command: Command,
    pub phase: nat,
    pub held: nat,
    pub stage: FlowStage,
    pub failure: Option<FaceError>,
}

impl FlowView {
    /// The states that a flow can be in.
    pub open spec fn wf(self) -> bool {
        let phases = lock_phases(self.command);
        match self.stage {
            FlowStage::Acquiring => self.phase < phases.len() && self.held
                < phases[self.phase as int].len() && self.failure is None,
            FlowStage::Working => self.phase < phases.len() && self.held
                == phases[self.phase as int].len() && self.failure is None,
            FlowStage::Releasing => self.phase < phases.len() && self.held
                <= phases[self.phase as int].len(),
            FlowStage::Finished => self.held == 0 && (self.failure is None ==> self.phase
                == phases.len()),
        }
    }

    /// The slot whose lock an acquiring flow asks for.
    pub open spec fn wanted(self) -> SlotKind {
        lock_phases(self.command)[self.phase as int][self.held as int]
    }

    /// Whether the flow holds the lock of `kind`.
    pub open spec fn holds(self, kind: SlotKind) -> bool {
        exists|i: int|
            0 <= i < self.held && self.phase < lock_phases(self.command).len()
                && #[trigger] lock_phases(self.command)[self.phase as int][i] == kind
    }

    /// The result that a finished flow hands to its caller.
    pub open spec fn outcome(self) -> Result<(), FaceError> {
        match self.failure {
            Some(e) => Err(e),
            None => Ok(()),
        }
    }
}

/// The first state of a flow.
pub open spec fn flow_start(command: Command) -> FlowView {
    FlowView { command, phase: 0, held: 0, stage: FlowStage::Acquiring, failure: None }
}

/// What a flow asks for in a given state.
pub open spec fn action_of(flow: FlowView) -> FlowAction {
    match flow.stage {
        FlowStage::Acquiring => FlowAction::Acquire(flow.wanted()),
        FlowStage::Working => FlowAction::Perform { phase: flow.phase as usize },
        FlowStage::Releasing => FlowAction::ReleaseAll,
        FlowStage::Finished => FlowAction::Finish(flow.outcome()),
    }
}

/// The state of a flow after an event. An event that does not answer what
/// the flow asked for changes nothing.
pub open spec fn flow_after(flow: FlowView, event: FlowEvent) -> FlowView {
    let phases = lock_phases(flow.command);
    match (flow.stage, event) {
        (FlowStage::Acquiring, FlowEvent::Acquired { present }) => {
            if !present && needs_present(flow.command) {
                FlowView {
                    held: flow.held + 1,
                    stage: FlowStage::Releasing,
                    failure: Some(FaceError::NotInitialized(flow.wanted())),
                    ..flow
                }
            } else if present && settled_when_present(flow.command) {
                FlowView { held: flow.held + 1, stage: FlowStage::Releasing, ..flow }
            } else if flow.held + 1 == phases[flow.phase as int].len() {
                FlowView { held: flow.held + 1, stage: FlowStage::Working, ..flow }
            } else {
                FlowView { held: flow.held + 1, ..flow }
            }
        },
        (FlowStage::Working, FlowEvent::Performed(result)) => {
            FlowView {
                stage: FlowStage::Releasing,
                failure: match result {
                    Ok(_) => None,
                    Err(e) => Some(e),
                },
                ..flow
            }
        },
        (FlowStage::Releasing, FlowEvent::Released) => {
            if flow.failure is Some {
                FlowView { held: 0, stage: FlowStage::Finished, ..flow }
            } else if flow.phase + 1 == phases.len() {
                FlowView { phase: flow.phase + 1, held: 0, stage: FlowStage::Finished, ..flow }
            } else {
                FlowView { phase: flow.phase + 1, held: 0, stage: FlowStage::Acquiring, ..flow }
            }
        },
        _ => flow,
    }
}

impl View for CommandFlow {
    type V = FlowView;

    closed spec fn view(&self) -> FlowView {
        FlowView {
            command: self.command,
            phase: self.phase as nat,
            held: self.held as nat,
            stage: self.stage,
            failure: self.failure,
        }
    }
}

impl CommandFlow {
    #[verifier::type_invariant]
    spec fn inv(self) -> bool {
        self@.wf()
    }

    /// A flow for `command` that has not taken any lock yet.
    pub fn new(command: Command) -> (r: CommandFlow)
        ensures
            r@ == flow_start(command),
            r@.wf(),
    {
        proof {
            lemma_phases_ordered(command);
        }
        CommandFlow { command, phase: 0, held: 0, stage: FlowStage::Acquiring, failure: None }
    }

    pub fn command(&self) -> (r: Command)
        ensures
            r == self@.command,
    {
        self.command
    }

    pub fn stage(&self) -> (r: FlowStage)
        ensures
            r == self@.stage,
    {
        self.stage
    }

    /// What the embedding program is to do now.
    pub fn next_action(&self) -> (r: FlowAction)
        ensures
            self@.wf(),
            r == action_of(self@),
    {
        proof {
            use_type_invariant(self);
        }
        match self.stage {
            FlowStage::Acquiring => {
                let plan = self.command.lock_plan();
                FlowAction::Acquire(plan[self.phase][self.held])
            },
            FlowStage::Working => FlowAction::Perform { phase: self.phase },
            FlowStage::Releasing => FlowAction::ReleaseAll,
            FlowStage::Finished => FlowAction::Finish(
                match self.failure {
                    Some(e) => Err(e),
                    None => Ok(()),
                },
            ),
        }
    }

    /// Takes note of how the action asked for has ended. An absent slot
    /// ends a command that works with handles: the flow releases what it
    /// holds and finishes with `NotInitialized` for that slot, without doing
    /// the work of the phase. A camera that is open already ends the command
    /// that opens it: the flow releases the lock and finishes well, again
    /// without any work. An error in the work of a phase ends the command
    /// with that error, after the release.
    pub fn report(&mut self, event: FlowEvent)
        ensures
            final(self)@ == flow_after(old(self)@, event),
            final(self)@.wf(),
    {
        proof {
            use_type_invariant(&*self);
            lemma_phases_ordered(self.command);
        }
        let plan = self.command.lock_plan();
        match (self.stage, event) {
            (FlowStage::Acquiring, FlowEvent::Acquired { present }) => {
                if !present && self.command.uses_handles() {
                    *self = CommandFlow {
                        command: self.command,
                        phase: self.phase,
                        held: self.held + 1,
                        stage: FlowStage::Releasing,
                        failure: Some(FaceError::NotInitialized(plan[self.phase][self.held])),
                    };
                } else if present && self.command.is_settled_when_present() {
                    *self = CommandFlow {
                        command: self.command,
                        phase: self.phase,
                        held: self.held + 1,
                        stage: FlowStage::Releasing,
                        failure: None,
                    };
                } else if self.held + 1 == plan[self.phase].len() {
                    *self = CommandFlow {
                        command: self.command,
                        phase: self.phase,
                        held: self.held + 1,
                        stage: FlowStage::Working,
                        failure: None,
                    };
                } else {
                    *self = CommandFlow {
                        command: self.command,
                        phase: self.phase,
                        held: self.held + 1,
                        stage: FlowStage::Acquiring,
                        failure: None,
                    };
                }
            },
            (FlowStage::Working, FlowEvent::Performed(result)) => {
                *self = CommandFlow {
                    command: self.command,
                    phase: self.phase,
                    held: self.held,
                    stage: FlowStage::Releasing,
                    failure: match result {
                        Ok(_) => None,
                        Err(e) => Some(e),
                    },
                };
            },
            (FlowStage::Releasing, FlowEvent::Released) => {
                if self.failure.is_some() {
                    *self = CommandFlow {
                        command: self.command,
                        phase: self.phase,
                        held: 0,
                        stage: FlowStage::Finished,
                        failure: self.failure,
                    };
                } else if self.phase + 1 == plan.len() {
                    *self = CommandFlow {
                        command: self.command,
                        phase: self.phase + 1,
                        held: 0,
                        stage: FlowStage::Finished,
                        failure: None,
                    };
                } else {
                    *self = CommandFlow {
                        command: self.command,
                        phase: self.phase + 1,
                        held: 0,
                        stage: FlowStage::Acquiring,
                        failure: None,
                    };
                }
            },
            _ => {},
        }
    }
}

/// A flow begins in one of its states, holding nothing, and every step
/// leaves it in one of its states.
pub proof fn lemma_flow_stays_wf(flow: FlowView, event: FlowEvent)
    requires
        flow.wf(),
    ensures
        flow_after(flow, event).wf(),
        flow_after(flow, event).command == flow.command,
        flow_start(flow.command).wf(),
        forall|kind: SlotKind| !flow_start(flow.command).holds(kind),
{
    lemma_phases_ordered(flow.command);
}

/// An error is final. Once a flow has met an error, be it an absent slot or
/// a failure in the work of a phase, it asks for no further lock and no
/// further work: it releases what it holds and finishes with that error.
pub proof fn lemma_failure_is_final(flow: FlowView, event: FlowEvent)
    requires
        flow.wf(),
        flow.failure is Some,
    ensures
        flow_after(flow, event).failure == flow.failure,
        action_of(flow) == FlowAction::ReleaseAll || action_of(flow) == FlowAction::Finish(
            Err(flow.failure->0),
        ),
{
}

/// An absent slot ends a command that works with handles. Whatever such a
/// command has done so far, when it takes the lock of a slot and finds no
/// handle there, the next thing it asks for is the release of its locks,
/// and then it finishes with `NotInitialized` for that very slot. The work
/// of the phase is never asked for.
pub proof fn lemma_absent_slot_ends_command(flow: FlowView)
    requires
        flow.wf(),
        flow.stage is Acquiring,
        needs_present(flow.command),
    ensures
        action_of(flow) == FlowAction::Acquire(flow.wanted()),
        action_of(flow_after(flow, FlowEvent::Acquired { present: false }))
            == FlowAction::ReleaseAll,
        action_of(
            flow_after(
                flow_after(flow, FlowEvent::Acquired { present: false }),
                FlowEvent::Released,
            ),
        ) == FlowAction::Finish(Err(FaceError::NotInitialized(flow.wanted()))),
{
}

/// Opening an open camera changes nothing. When the command that opens the
/// camera takes the lock and finds a handle there, it asks for the release
/// of the lock and then finishes well; the work of opening is never asked
/// for.
pub proof fn lemma_open_camera_is_settled(flow: FlowView)
    requires
        flow.wf(),
        flow.stage is Acquiring,
        settled_when_present(flow.command),
    ensures
        action_of(flow) == FlowAction::Acquire(SlotKind::Camera),
        action_of(flow_after(flow, FlowEvent::Acquired { present: true }))
            == FlowAction::ReleaseAll,
        action_of(
            flow_after(
                flow_after(flow, FlowEvent::Acquired { present: true }),
                FlowEvent::Released,
            ),
        ) == FlowAction::Finish(Ok(())),
        action_of(flow_after(flow, FlowEvent::Acquired { present: false }))
            == (FlowAction::Perform { phase: 0 }),
{
}

/// An upper bound on the number of steps that a flow can still take.
pub open spec fn flow_steps_left(flow: FlowView) -> int {
    let phases_left = lock_phases(flow.command).len() - flow.phase;
    match flow.stage {
        FlowStage::Acquiring => 4 * phases_left - flow.held,
        FlowStage::Working => 4 * phases_left - 2,
        FlowStage::Releasing => 4 * phases_left - 3,
        FlowStage::Finished => 0,
    }
}

/// A flow cannot go on for ever: every step that changes its state uses up
/// at least one of the at most eight steps that are left, and a flow ends
/// holding nothing.
pub proof fn lemma_flow_terminates(flow: FlowView, event: FlowEvent)
    requires
        flow.wf(),
    ensures
        0 <= flow_steps_left(flow) <= 8,
        flow_after(flow, event) != flow ==> flow_steps_left(flow_after(flow, event))
            < flow_steps_left(flow),
        flow_steps_left(flow) == 0 <==> flow.stage is Finished,
        flow.stage is Finished ==> forall|kind: SlotKind| !flow.holds(kind),
{
    lemma_phases_ordered(flow.command);
}

/// Every flow of the collection is in one of its states.
pub open spec fn all_wf(flows: Seq<FlowView>) -> bool {
    forall|i: int| 0 <= i < flows.len() ==> (#[trigger] flows[i]).wf()
}

/// No lock is held by two flows at once.
pub open spec fn exclusive(flows: Seq<FlowView>) -> bool {
    forall|i: int, j: int, kind: SlotKind|
        0 <= i < flows.len() && 0 <= j < flows.len() && i != j && (#[trigger] flows[i].holds(
            kind,
        )) ==> !(#[trigger] flows[j].holds(kind))
}

/// Flow `i` waits for a lock that another flow holds.
pub open spec fn blocked(flows: Seq<FlowView>, i: int) -> bool {
    &&& flows[i].stage is Acquiring
    &&& exists|j: int|
        0 <= j < flows.len() && j != i && #[trigger] flows[j].holds(flows[i].wanted())
}

/// Flow `i` has not ended and nothing keeps it from its next step.
pub open spec fn can_step(flows: Seq<FlowView>, i: int) -> bool {
    &&& 0 <= i < flows.len()
    &&& !(flows[i].stage is Finished)
    &&& !blocked(flows, i)
}

/// The holder of a lock that a blocked flow waits for, where no flow can
/// step: it is blocked itself, on a lock of higher rank.
proof fn lemma_blocked_chain(flows: Seq<FlowView>, a: int) -> (b: int)
    requires
        all_wf(flows),
        0 <= a < flows.len(),
        blocked(flows, a),
        forall|i: int| !can_step(flows, i),
    ensures
        0 <= b < flows.len(),
        blocked(flows, b),
        flows[b].wanted().rank() > flows[a].wanted().rank(),
{
    let kind = flows[a].wanted();
    let b = choose|j: int| 0 <= j < flows.len() && j != a && #[trigger] flows[j].holds(kind);
    let holder = flows[b];
    let at = choose|i: int|
        0 <= i < holder.held && holder.phase < lock_phases(holder.command).len()
            && #[trigger] lock_phases(holder.command)[holder.phase as int][i] == kind;
    assert(!can_step(flows, b));
    lemma_phases_ordered(holder.command);
    assert(lock_phases(holder.command)[holder.phase as int][at].rank() < lock_phases(
        holder.command,
    )[holder.phase as int][holder.held as int].rank());
    b
}

/// Commands never deadlock. However many flows are under way and however
/// their steps have interleaved, as long as one of them has not ended there
/// is one that can take its next step: it asks for no lock, or for a lock
/// that nobody holds.
pub proof fn lemma_no_deadlock(flows: Seq<FlowView>)
    requires
        all_wf(flows),
        exists|i: int| 0 <= i < flows.len() && !((#[trigger] flows[i]).stage is Finished),
    ensures
        exists|i: int| can_step(flows, i),
{
    if !(exists|i: int| can_step(flows, i)) {
        let a = choose|i: int| 0 <= i < flows.len() && !((#[trigger] flows[i]).stage is Finished);
        assert(!can_step(flows, a));
        let b = lemma_blocked_chain(flows, a);
        let c = lemma_blocked_chain(flows, b);
        let d = lemma_blocked_chain(flows, c);
        assert(flows[d].wanted().rank() >= 3);
    }
}

/// Steps keep the locks exclusive. Where no lock is held twice and a flow
/// takes a step, taking a lock only when nobody else holds it, no lock is
/// held twice afterwards either.
pub proof fn lemma_step_keeps_exclusive(flows: Seq<FlowView>, i: int, event: FlowEvent)
    requires
        all_wf(flows),
        exclusive(flows),
        0 <= i < flows.len(),
        event is Acquired ==> !blocked(flows, i),
    ensures
        all_wf(flows.update(i, flow_after(flows[i], event))),
        exclusive(flows.update(i, flow_after(flows[i], event))),
{
    let before = flows[i];
    let after = flow_after(before, event);
    let next = flows.update(i, after);
    lemma_flow_stays_wf(before, event);
    lemma_phases_ordered(before.command);
    assert forall|kind: SlotKind| after.holds(kind) implies before.holds(kind) || (event
        is Acquired && before.stage is Acquiring && kind == before.wanted()) by {
        let at = choose|k: int|
            0 <= k < after.held && after.phase < lock_phases(after.command).len()
                && #[trigger] lock_phases(after.command)[after.phase as int][k] == kind;
        assert(at < before.held ==> lock_phases(before.command)[before.phase as int][at] == kind);
    }
    assert forall|a: int, b: int, kind: SlotKind|
        0 <= a < next.len() && 0 <= b < next.len() && a != b && (#[trigger] next[a].holds(
            kind,
        )) implies !(#[trigger] next[b].holds(kind)) by {
        if a == i && next[b].holds(kind) {
            assert(flows[b].holds(kind));
        }
        if b == i && next[b].holds(kind) {
            assert(flows[a].holds(kind));
        }
    }
}

} // verus!
