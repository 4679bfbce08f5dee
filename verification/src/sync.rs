//! Fanning one summary out to every board, one target after another.
//!
//! The remote calls are not made here. A session says which step is to be
//! taken next, and is told how the step went; what it records, and what it
//! asks for next, is decided here. A target that fails is recorded and the
//! session goes on to the next: no failure ends the run.
//!
//! Before every target but the first the session asks for a pause, to stay
//! under the rate that the remote side accepts.

use crate::board_service::BoardData;
use crate::board_ui_service::BoardMessage;
use crate::text::{push_signed_decimal, signed_decimal};
use vstd::prelude::*;
use vstd::string::StringExecFns;

verus! {

/// How long to wait between two targets, in milliseconds.
pub const PACING_MILLIS: u64 = 500;

/// What kind of channel the remote side says a channel is.
#[derive(Clone, Copy, Debug, PartialEq, Eq, Structural)]
pub enum ChannelKind {
    /// A channel of a server.
    Guild,
    /// Any other kind of channel.
    Other,
}

/// Why a board could not be brought up to date. Where the remote side
/// refused, its own words are kept.
#[derive(Debug, PartialEq, Eq)]
pub enum SurfaceError {
    /// The channel could not be had.
    Channel(String),
    /// The channel is not a channel of a server.
    NotGuildChannel,
    /// The message could not be had.
    Message(String),
    /// The message could not be changed.
    Edit(String),
}

/// How the update of one board ended.
#[derive(Debug, PartialEq, Eq)]
pub enum Outcome {
    /// The message now shows the summary.
    Updated,
    /// The message was left as it was.
    Failed(SurfaceError),
}

/// What the session waits for.
#[derive(Clone, Copy, Debug, PartialEq, Eq, Structural)]
pub enum SyncPhase {
    /// The pause before the next target.
    Paused,
    /// The channel of the target.
    ResolvingChannel,
    /// The message of the target.
    ResolvingMessage,
    /// The change of the message.
    Editing,
    /// Nothing: every target has its outcome.
    Done,
}

/// The step that is to be taken next.
#[derive(Clone, Copy, Debug, PartialEq, Eq, Structural)]
pub enum SyncStep {
    /// Wait for so many milliseconds.
    Pause { millis: u64 },
    /// Ask the remote side for the channel of the target.
    ResolveChannel { target: BoardData },
    /// Ask the remote side for the message of the target.
    ResolveMessage { target: BoardData },
    /// Replace what the message shows by the summary, with the chart
    /// attached where `attach_chart` is set.
    EditMessage { target: BoardData, attach_chart: bool },
    /// Nothing is left to do.
    Finished,
}

/// How a step went.
#[derive(Debug, PartialEq, Eq)]
pub enum SyncEvent {
    /// The pause is over.
    PauseElapsed,
    /// The remote side named the kind of the channel, or refused.
    Channel(Result<ChannelKind, String>),
    /// The remote side gave the message, or refused.
    Message(Result<(), String>),
    /// The remote side changed the message, or refused.
    Edited(Result<(), String>),
}

/// A board that was not brought up to date, and why.
#[derive(Debug, PartialEq, Eq)]
pub struct SyncFailure {
    /// The identifier of the board in the registry.
    pub board_id: i32,
    /// The message that is the board.
    pub message_id: i64,
    /// Why the update failed.
    pub error: SurfaceError,
}

/// What a run did, target by target.
#[derive(Debug, PartialEq, Eq)]
pub struct SyncReport {
    /// The messages that now show the summary, in the order of the targets.
    pub successes: Vec<i64>,
    /// The boards that were left as they were, in the order of the targets.
    pub failures: Vec<SyncFailure>,
    /// One line for each target, under a heading, to tell a person how the
    /// run went.
    pub response: String,
}

/// The failures of a run that did not bring every board up to date. It
/// ends nothing: the boards that could be updated have been.
#[derive(Debug, PartialEq, Eq)]
pub struct BatchPartialFailure {
    /// The boards that were left as they were, in the order of the targets.
    pub failures: Vec<SyncFailure>,
}

impl SyncReport {
    /// The failures of the run, if there was any.
    pub fn partial_failure(self) -> (r: Option<BatchPartialFailure>)
        ensures
            r is Some <==> self.failures@.len() > 0,
            r matches Some(batch) ==> batch.failures == self.failures,
    {
        if self.failures.len() > 0 {
            Some(BatchPartialFailure { failures: self.failures })
        } else {
            None
        }
    }
}

/// The words by which a failure is told.
pub open spec fn reason_text(error: SurfaceError) -> Seq<char> {
    match error {
        SurfaceError::Channel(words) => words@,
        SurfaceError::NotGuildChannel => "ギルドチャンネルではありません。"@,
        SurfaceError::Message(words) => words@,
        SurfaceError::Edit(words) => words@,
    }
}

/// The test that an outcome is a failure.
pub open spec fn is_failure() -> spec_fn(Outcome) -> bool {
    |o: Outcome| o is Failed
}

/// The line that tells how the update of `target` ended.
pub open spec fn line_of(target: BoardData, outcome: Outcome) -> Seq<char> {
    match outcome {
        Outcome::Updated => "メッセージID: "@ + signed_decimal(target.message_id as int)
            + " を編集しました。\n"@,
        Outcome::Failed(error) => "メッセージID: "@ + signed_decimal(target.message_id as int)
            + " の更新中にエラーが発生しました: "@ + reason_text(error) + "\n"@,
    }
}

/// The messages of the targets whose outcome is a success.
pub open spec fn successes_of(targets: Seq<BoardData>, outcomes: Seq<Outcome>) -> Seq<i64>
    decreases outcomes.len(),
{
    if outcomes.len() == 0 {
        Seq::empty()
    } else {
        let before = successes_of(targets, outcomes.drop_last());
        match outcomes.last() {
            Outcome::Updated => before.push(targets[outcomes.len() - 1].message_id),
            Outcome::Failed(_) => before,
        }
    }
}

/// The targets whose outcome is a failure, each with its reason.
pub open spec fn failures_of(targets: Seq<BoardData>, outcomes: Seq<Outcome>) -> Seq<SyncFailure>
    decreases outcomes.len(),
{
    if outcomes.len() == 0 {
        Seq::empty()
    } else {
        let before = failures_of(targets, outcomes.drop_last());
        let target = targets[outcomes.len() - 1];
        match outcomes.last() {
            Outcome::Updated => before,
            Outcome::Failed(error) => before.push(
                SyncFailure { board_id: target.id, message_id: target.message_id, error },
            ),
        }
    }
}

/// The heading, and under it the line of each target that has an outcome.
pub open spec fn response_of(targets: Seq<BoardData>, outcomes: Seq<Outcome>) -> Seq<char>
    decreases outcomes.len(),
{
    if outcomes.len() == 0 {
        "保存された掲示板データ:\n"@
    } else {
        response_of(targets, outcomes.drop_last()) + line_of(
            targets[outcomes.len() - 1],
            outcomes.last(),
        )
    }
}

/// Where a run stands: its targets, the outcomes recorded so far, one for
/// each target from the first on, and what it waits for.
pub struct SyncState {
    /// The boards to bring up to date, in the order in which they are taken.
    pub targets: Seq<BoardData>,
    /// The outcomes of the targets that are done.
    pub outcomes: Seq<Outcome>,
    /// What the session waits for.
    pub phase: SyncPhase,
    /// Whether the chart goes with the summary.
    pub attach_chart: bool,
    /// How long the pause between two targets is, in milliseconds.
    pub pacing: u64,
}

impl SyncState {
    /// No more outcomes than targets, and done exactly when each target has
    /// its outcome.
    pub open spec fn wf(self) -> bool {
        &&& self.outcomes.len() <= self.targets.len()
        &&& self.phase == SyncPhase::Done <==> self.outcomes.len() == self.targets.len()
    }

    /// The state in which a run over `targets` begins.
    pub open spec fn initial(targets: Seq<BoardData>, attach_chart: bool, pacing: u64) -> SyncState {
        SyncState {
            targets,
            outcomes: Seq::empty(),
            phase: if targets.len() == 0 {
                SyncPhase::Done
            } else {
                SyncPhase::ResolvingChannel
            },
            attach_chart,
            pacing,
        }
    }

    /// The target that is being worked on.
    pub open spec fn target(self) -> BoardData {
        self.targets[self.outcomes.len() as int]
    }

    /// The step that the state waits for.
    pub open spec fn pending(self) -> SyncStep {
        match self.phase {
            SyncPhase::Paused => SyncStep::Pause { millis: self.pacing },
            SyncPhase::ResolvingChannel => SyncStep::ResolveChannel { target: self.target() },
            SyncPhase::ResolvingMessage => SyncStep::ResolveMessage { target: self.target() },
            SyncPhase::Editing => SyncStep::EditMessage {
                target: self.target(),
                attach_chart: self.attach_chart,
            },
            SyncPhase::Done => SyncStep::Finished,
        }
    }

    /// The state once the target that is being worked on has its outcome:
    /// done where it was the last, pausing before the next otherwise.
    pub open spec fn recorded(self, outcome: Outcome) -> SyncState {
        SyncState {
            targets: self.targets,
            outcomes: self.outcomes.push(outcome),
            phase: if self.outcomes.len() + 1 == self.targets.len() {
                SyncPhase::Done
            } else {
                SyncPhase::Paused
            },
            attach_chart: self.attach_chart,
            pacing: self.pacing,
        }
    }

    /// The state in another phase.
    pub open spec fn in_phase(self, phase: SyncPhase) -> SyncState {
        SyncState {
            targets: self.targets,
            outcomes: self.outcomes,
            phase,
            attach_chart: self.attach_chart,
            pacing: self.pacing,
        }
    }

    /// The state after `event`. An event that does not answer the step the
    /// state waits for changes nothing.
    pub open spec fn advanced(self, event: SyncEvent) -> SyncState {
        match (self.phase, event) {
            (SyncPhase::Paused, SyncEvent::PauseElapsed) => self.in_phase(
                SyncPhase::ResolvingChannel,
            ),
            (SyncPhase::ResolvingChannel, SyncEvent::Channel(Ok(ChannelKind::Guild))) => self.in_phase(
                SyncPhase::ResolvingMessage,
            ),
            (SyncPhase::ResolvingChannel, SyncEvent::Channel(Ok(ChannelKind::Other))) => self.recorded(
                Outcome::Failed(SurfaceError::NotGuildChannel),
            ),
            (SyncPhase::ResolvingChannel, SyncEvent::Channel(Err(words))) => self.recorded(
                Outcome::Failed(SurfaceError::Channel(words)),
            ),
            (SyncPhase::ResolvingMessage, SyncEvent::Message(Ok(_))) => self.in_phase(
                SyncPhase::Editing,
            ),
            (SyncPhase::ResolvingMessage, SyncEvent::Message(Err(words))) => self.recorded(
                Outcome::Failed(SurfaceError::Message(words)),
            ),
            (SyncPhase::Editing, SyncEvent::Edited(Ok(_))) => self.recorded(Outcome::Updated),
            (SyncPhase::Editing, SyncEvent::Edited(Err(words))) => self.recorded(
                Outcome::Failed(SurfaceError::Edit(words)),
            ),
            _ => self,
        }
    }
}

/// Whether `event` tells how the step went that the state waits for.
pub open spec fn answers(state: SyncState, event: SyncEvent) -> bool {
    match (state.phase, event) {
        (SyncPhase::Paused, SyncEvent::PauseElapsed) => true,
        (SyncPhase::ResolvingChannel, SyncEvent::Channel(_)) => true,
        (SyncPhase::ResolvingMessage, SyncEvent::Message(_)) => true,
        (SyncPhase::Editing, SyncEvent::Edited(_)) => true,
        _ => false,
    }
}

/// How many steps a run may still take: three for a target, the pause
/// before it where it is not the first, less what has been done for the
/// target that is being worked on.
pub open spec fn steps_left(state: SyncState) -> int {
    let later = 4 * (state.targets.len() - state.outcomes.len() - 1);
    match state.phase {
        SyncPhase::Paused => later + 4,
        SyncPhase::ResolvingChannel => later + 3,
        SyncPhase::ResolvingMessage => later + 2,
        SyncPhase::Editing => later + 1,
        SyncPhase::Done => 0,
    }
}

impl SurfaceError {
    /// The words by which the failure is told.
    pub fn reason(&self) -> (words: &str)
        ensures
            words@ == reason_text(*self),
    {
        match self {
            SurfaceError::Channel(words) => words.as_str(),
            SurfaceError::NotGuildChannel => "ギルドチャンネルではありません。",
            SurfaceError::Message(words) => words.as_str(),
            SurfaceError::Edit(words) => words.as_str(),
        }
    }

    /// A second copy of the failure.
    pub fn duplicate(&self) -> (copy: SurfaceError)
        ensures
            copy == *self,
    {
        match self {
            SurfaceError::Channel(words) => SurfaceError::Channel(words.clone()),
            SurfaceError::NotGuildChannel => SurfaceError::NotGuildChannel,
            SurfaceError::Message(words) => SurfaceError::Message(words.clone()),
            SurfaceError::Edit(words) => SurfaceError::Edit(words.clone()),
        }
    }
}

/// A run over the boards: the summary that goes to each of them, which step
/// is next, and what has been recorded.
pub struct SyncSession {
    message: BoardMessage,
    targets: Vec<BoardData>,
    outcomes: Vec<Outcome>,
    stage: SyncPhase,
    pacing_millis: u64,
}

impl View for SyncSession {
    type V = SyncState;

    closed spec fn view(&self) -> SyncState {
        SyncState {
            targets: self.targets@,
            outcomes: self.outcomes@,
            phase: if self.outcomes@.len() == self.targets@.len() {
                SyncPhase::Done
            } else {
                self.stage
            },
            attach_chart: self.message.embed.image is Some,
            pacing: self.pacing_millis,
        }
    }
}

impl SyncSession {
    #[verifier::type_invariant]
    spec fn well_formed(self) -> bool {
        &&& self.outcomes@.len() <= self.targets@.len()
        &&& self.outcomes@.len() < self.targets@.len() ==> self.stage != SyncPhase::Done
    }

    /// The summary that goes to every board.
    pub closed spec fn payload(&self) -> BoardMessage {
        self.message
    }

    /// Begins a run that takes `message` to each of `targets`, in the order
    /// given, with the usual pause between two targets. The chart goes with
    /// the summary where the summary shows it.
    pub fn begin(targets: Vec<BoardData>, message: BoardMessage) -> (session: SyncSession)
        ensures
            session@ == SyncState::initial(targets@, message.embed.image is Some, PACING_MILLIS),
            session@.wf(),
            session.payload() == message,
    {
        SyncSession::begin_paced(targets, message, PACING_MILLIS)
    }

    /// Begins a run that takes `message` to each of `targets`, in the order
    /// given, with a pause of `pacing_millis` milliseconds between two
    /// targets.
    pub fn begin_paced(targets: Vec<BoardData>, message: BoardMessage, pacing_millis: u64) -> (session:
        SyncSession)
        ensures
            session@ == SyncState::initial(targets@, message.embed.image is Some, pacing_millis),
            session@.wf(),
            session.payload() == message,
    {
        SyncSession {
            message,
            targets,
            outcomes: Vec::new(),
            stage: SyncPhase::ResolvingChannel,
            pacing_millis,
        }
    }

    /// The summary that goes to every board.
    pub fn message(&self) -> (message: &BoardMessage)
        ensures
            *message == self.payload(),
            self@.attach_chart == (message.embed.image is Some),
    {
        &self.message
    }

    /// The step that is to be taken next.
    pub fn pending(&self) -> (step: SyncStep)
        ensures
            self@.wf(),
            step == self@.pending(),
    {
        proof {
            use_type_invariant(self);
        }
        if self.outcomes.len() == self.targets.len() {
            return SyncStep::Finished;
        }
        let target: BoardData = self.targets[self.outcomes.len()];
        match self.stage {
            SyncPhase::Paused => SyncStep::Pause { millis: self.pacing_millis },
            SyncPhase::ResolvingChannel => SyncStep::ResolveChannel { target },
            SyncPhase::ResolvingMessage => SyncStep::ResolveMessage { target },
            SyncPhase::Editing => SyncStep::EditMessage {
                target,
                attach_chart: self.message.embed.image.is_some(),
            },
            SyncPhase::Done => SyncStep::Finished,
        }
    }

    /// What the session waits for.
    pub fn phase(&self) -> (phase: SyncPhase)
        ensures
            self@.wf(),
            phase == self@.phase,
    {
        proof {
            use_type_invariant(self);
        }
        if self.outcomes.len() == self.targets.len() {
            SyncPhase::Done
        } else {
            self.stage
        }
    }

    /// Whether every target has its outcome.
    pub fn is_finished(&self) -> (done: bool)
        ensures
            self@.wf(),
            done == (self@.phase == SyncPhase::Done),
            done == (self@.outcomes.len() == self@.targets.len()),
    {
        proof {
            use_type_invariant(self);
        }
        self.outcomes.len() == self.targets.len()
    }

    /// Records the outcome of the target that is being worked on.
    fn record(&mut self, outcome: Outcome)
        requires
            old(self)@.phase != SyncPhase::Done,
        ensures
            final(self)@ == old(self)@.recorded(outcome),
            final(self)@.wf(),
            final(self).payload() == old(self).payload(),
    {
        proof {
            use_type_invariant(&*self);
        }
        let mut outcomes: Vec<Outcome> = Vec::new();
        core::mem::swap(&mut self.outcomes, &mut outcomes);
        outcomes.push(outcome);
        core::mem::swap(&mut self.outcomes, &mut outcomes);
        self.stage = SyncPhase::Paused;
    }

    /// Moves to another phase.
    fn enter(&mut self, phase: SyncPhase)
        requires
            old(self)@.phase != SyncPhase::Done,
            phase != SyncPhase::Done,
        ensures
            final(self)@ == old(self)@.in_phase(phase),
            final(self)@.wf(),
            final(self).payload() == old(self).payload(),
    {
        proof {
            use_type_invariant(&*self);
        }
        self.stage = phase;
    }

    /// Takes in how a step went and says which step is next. An event that
    /// does not answer the step the session waits for changes nothing, and
    /// the same step is asked for again.
    pub fn advance(&mut self, event: SyncEvent) -> (step: SyncStep)
        ensures
            final(self)@ == old(self)@.advanced(event),
            final(self)@.wf(),
            final(self).payload() == old(self).payload(),
            step == final(self)@.pending(),
    {
        match self.phase() {
            SyncPhase::Paused => match event {
                SyncEvent::PauseElapsed => self.enter(SyncPhase::ResolvingChannel),
                _ => {},
            },
            SyncPhase::ResolvingChannel => match event {
                SyncEvent::Channel(Ok(ChannelKind::Guild)) => self.enter(
                    SyncPhase::ResolvingMessage,
                ),
                SyncEvent::Channel(Ok(ChannelKind::Other)) => self.record(
                    Outcome::Failed(SurfaceError::NotGuildChannel),
                ),
                SyncEvent::Channel(Err(words)) => self.record(
                    Outcome::Failed(SurfaceError::Channel(words)),
                ),
                _ => {},
            },
            SyncPhase::ResolvingMessage => match event {
                SyncEvent::Message(Ok(_)) => self.enter(SyncPhase::Editing),
                SyncEvent::Message(Err(words)) => self.record(
                    Outcome::Failed(SurfaceError::Message(words)),
                ),
                _ => {},
            },
            SyncPhase::Editing => match event {
                SyncEvent::Edited(Ok(_)) => self.record(Outcome::Updated),
                SyncEvent::Edited(Err(words)) => self.record(
                    Outcome::Failed(SurfaceError::Edit(words)),
                ),
                _ => {},
            },
            SyncPhase::Done => {},
        }
        self.pending()
    }

    /// What the run has done so far. Once the session is finished the
    /// report accounts for every target.
    pub fn report(&self) -> (report: SyncReport)
        ensures
            self@.wf(),
            report.successes@ == successes_of(self@.targets, self@.outcomes),
            report.failures@ == failures_of(self@.targets, self@.outcomes),
            report.response@ == response_of(self@.targets, self@.outcomes),
            report.successes@.len() + report.failures@.len() == self@.outcomes.len(),
            self@.phase == SyncPhase::Done ==> report.successes@.len() + report.failures@.len()
                == self@.targets.len(),
    {
        proof {
            use_type_invariant(self);
        }
        let mut successes: Vec<i64> = Vec::new();
        let mut failures: Vec<SyncFailure> = Vec::new();
        let mut response: String = String::from_str("保存された掲示板データ:\n");
        let mut i: usize = 0;
        while i < self.outcomes.len()
            invariant
                i <= self.outcomes.len() <= self.targets.len(),
                successes@ == successes_of(self.targets@, self.outcomes@.take(i as int)),
                failures@ == failures_of(self.targets@, self.outcomes@.take(i as int)),
                response@ == response_of(self.targets@, self.outcomes@.take(i as int)),
            decreases self.outcomes.len() - i,
        {
            let target: BoardData = self.targets[i];
            proof {
                assert(self.outcomes@.take(i as int + 1).drop_last() =~= self.outcomes@.take(
                    i as int,
                ));
            }
            let ghost before = response@;
            response.append("メッセージID: ");
            push_signed_decimal(&mut response, target.message_id);
            match &self.outcomes[i] {
                Outcome::Updated => {
                    successes.push(target.message_id);
                    response.append(" を編集しました。\n");
                },
                Outcome::Failed(error) => {
                    failures.push(
                        SyncFailure {
                            board_id: target.id,
                            message_id: target.message_id,
                            error: error.duplicate(),
                        },
                    );
                    response.append(" の更新中にエラーが発生しました: ");
                    response.append(error.reason());
                    response.append("\n");
                },
            }
            proof {
                assert(response@ =~= before + line_of(target, self.outcomes@[i as int]));
            }
            i += 1;
        }
        proof {
            assert(self.outcomes@.take(i as int) =~= self.outcomes@);
            lemma_report_accounts_for_every_outcome(self.targets@, self.outcomes@);
        }
        SyncReport { successes, failures, response }
    }
}

/// Every outcome is either a success or a failure: with `n` outcomes of which
/// `m` are failures, the report lists `m` failures and `n - m` successes.
pub proof fn lemma_report_accounts_for_every_outcome(
    targets: Seq<BoardData>,
    outcomes: Seq<Outcome>,
)
    ensures
        failures_of(targets, outcomes).len() == outcomes.filter(is_failure()).len(),
        successes_of(targets, outcomes).len() == outcomes.len() - outcomes.filter(
            is_failure(),
        ).len(),
        successes_of(targets, outcomes).len() + failures_of(targets, outcomes).len()
            == outcomes.len(),
    decreases outcomes.len(),
{
    reveal(Seq::filter);
    if outcomes.len() > 0 {
        lemma_report_accounts_for_every_outcome(targets, outcomes.drop_last());
    }
}

/// No outcome ends a run early: once a target has its outcome, success or
/// failure, the session pauses before the next target, or is done where
/// that was the last.
pub proof fn lemma_run_goes_on(state: SyncState, outcome: Outcome)
    requires
        state.wf(),
        state.phase != SyncPhase::Done,
    ensures
        state.recorded(outcome).wf(),
        state.recorded(outcome).outcomes.len() == state.outcomes.len() + 1,
        state.recorded(outcome).targets == state.targets,
        state.outcomes.len() + 1 < state.targets.len() ==> state.recorded(outcome).pending()
            == (SyncStep::Pause { millis: state.pacing }),
        state.outcomes.len() + 1 == state.targets.len() ==> state.recorded(outcome).pending()
            == SyncStep::Finished,
{
}

/// A run ends: every event that answers the step the run waits for brings
/// it nearer to its end, and the run is done exactly when no step is left.
/// An event that answers nothing changes nothing.
pub proof fn lemma_run_ends(state: SyncState, event: SyncEvent)
    requires
        state.wf(),
    ensures
        steps_left(state) >= 0,
        steps_left(state) == 0 <==> state.phase == SyncPhase::Done,
        answers(state, event) ==> steps_left(state.advanced(event)) < steps_left(state),
        !answers(state, event) ==> state.advanced(event) == state,
{
}

/// A run over `n` targets takes at most three steps for each of them and a
/// pause between any two.
pub proof fn lemma_run_length(targets: Seq<BoardData>, attach_chart: bool, pacing: u64)
    ensures
        SyncState::initial(targets, attach_chart, pacing).wf(),
        steps_left(SyncState::initial(targets, attach_chart, pacing)) == if targets.len() == 0 {
            0
        } else {
            4 * targets.len() - 1
        },
{
}

/// Every event leaves the state well formed, keeps the targets and what
/// was recorded, and records at most one outcome more.
pub proof fn lemma_advanced_keeps_record(state: SyncState, event: SyncEvent)
    requires
        state.wf(),
    ensures
        state.advanced(event).wf(),
        state.advanced(event).targets == state.targets,
        state.advanced(event).attach_chart == state.attach_chart,
        state.advanced(event).pacing == state.pacing,
        state.advanced(event).outcomes == state.outcomes || (state.advanced(event).outcomes.len()
            == state.outcomes.len() + 1 && state.advanced(event).outcomes.drop_last()
            == state.outcomes),
{
    let after = state.advanced(event);
    if after.outcomes != state.outcomes {
        assert(after.outcomes.drop_last() =~= state.outcomes);
    }
}

} // verus!
