//! The leader-aware bundle sender, as a state machine. The surrounding
//! runtime performs each emitted command (open the result subscription,
//! sleep and poll the scheduler, submit the bundle) and feeds the next
//! relay event back in; every transition is a pure step, so the timing
//! contract — never submit while the next producer is more than the
//! configured number of slots away — is proved of every run.

use vstd::prelude::*;

use crate::types::{RejectReason, SubmissionOutcome};

verus! {

/// Where one bundle dispatch stands. Rejection and timeout are terminal for
/// this bundle: the caller must reassemble and re-enter at `Idle`.
#[derive(Clone, Copy, PartialEq, Eq, Structural, Debug)]
pub enum BundleSenderState {
    Idle,
    WaitingForLeader,
    Submitted,
    Confirmed { slot: u64 },
    Rejected { reason: RejectReason },
    TimedOut,
}

/// One event the runtime reports to the sender.
#[derive(Clone, Copy, PartialEq, Eq, Structural, Debug)]
pub enum RelayEvent {
    /// A caller asked this sender to land a bundle.
    DispatchRequested,
    /// The scheduler reported how many slots remain until the next
    /// bundle-capable producer.
    LeaderDistance { slots: u64 },
    /// The result subscription reported the bundle landed.
    BundleLanded { slot: u64 },
    /// The result subscription reported a rejection.
    BundleRejected { reason: RejectReason },
    /// No result arrived within the bounded wait.
    ResultTimeout,
}

/// What the runtime must do after a transition.
#[derive(Clone, Copy, PartialEq, Eq, Structural, Debug)]
pub enum RelayCommand {
    /// Open the result-subscription stream, before anything else can race it.
    OpenResultStream,
    /// Sleep the fixed poll interval, then report the leader distance again.
    PollLeader,
    /// Append the tip, sign against a fresh blockhash, submit atomically.
    SubmitBundle,
    /// Nothing to perform.
    Hold,
}

/// The transition table. Events that make no sense in the current state are
/// ignored where they stand.
pub open spec fn bundle_step_spec(
    state: BundleSenderState,
    threshold: u64,
    event: RelayEvent,
) -> (BundleSenderState, RelayCommand) {
    match (state, event) {
        (BundleSenderState::Idle, RelayEvent::DispatchRequested) => (
            BundleSenderState::WaitingForLeader,
            RelayCommand::OpenResultStream,
        ),
        (BundleSenderState::WaitingForLeader, RelayEvent::LeaderDistance { slots }) => {
            if slots <= threshold {
                (BundleSenderState::Submitted, RelayCommand::SubmitBundle)
            } else {
                (BundleSenderState::WaitingForLeader, RelayCommand::PollLeader)
            }
        },
        (BundleSenderState::Submitted, RelayEvent::BundleLanded { slot }) => (
            BundleSenderState::Confirmed { slot },
            RelayCommand::Hold,
        ),
        (BundleSenderState::Submitted, RelayEvent::BundleRejected { reason }) => (
            BundleSenderState::Rejected { reason },
            RelayCommand::Hold,
        ),
        (BundleSenderState::Submitted, RelayEvent::ResultTimeout) => (
            BundleSenderState::TimedOut,
            RelayCommand::Hold,
        ),
        (s, _) => (s, RelayCommand::Hold),
    }
}

/// The outcome a terminal state stands for. A timed-out bundle is `Unknown`:
/// the ledger is the only ground truth and may still confirm it.
pub open spec fn outcome_spec(state: BundleSenderState) -> Option<SubmissionOutcome> {
    match state {
        BundleSenderState::Confirmed { slot } => Option::Some(SubmissionOutcome::Landed { slot }),
        BundleSenderState::Rejected { reason } => Option::Some(
            SubmissionOutcome::Rejected { reason },
        ),
        BundleSenderState::TimedOut => Option::Some(SubmissionOutcome::Unknown),
        _ => Option::None,
    }
}

/// The sender's state plus its one configuration knob.
#[derive(Clone, Copy, PartialEq, Eq, Structural, Debug)]
pub struct BundleSender {
    pub state: BundleSenderState,
    /// Submit only when the next producer is at most this many slots away.
    pub leader_slot_threshold: u64,
}

impl BundleSender {
    /// A fresh sender, idle until a dispatch is requested.
    pub fn new(leader_slot_threshold: u64) -> (sender: BundleSender)
        ensures
            sender.state == BundleSenderState::Idle,
            sender.leader_slot_threshold == leader_slot_threshold,
    {
        BundleSender { state: BundleSenderState::Idle, leader_slot_threshold }
    }

    /// Takes one step of the transition table. A `SubmitBundle` command is
    /// only ever emitted on a leader distance at or below the threshold.
    pub fn on_event(&mut self, event: RelayEvent) -> (command: RelayCommand)
        ensures
            (final(self).state, command) == bundle_step_spec(
                old(self).state,
                old(self).leader_slot_threshold,
                event,
            ),
            final(self).leader_slot_threshold == old(self).leader_slot_threshold,
            command == RelayCommand::SubmitBundle ==> (event matches RelayEvent::LeaderDistance {
                slots,
            } && slots <= old(self).leader_slot_threshold),
    {
        let threshold = self.leader_slot_threshold;
        let command: RelayCommand;
        match (self.state, event) {
            (BundleSenderState::Idle, RelayEvent::DispatchRequested) => {
                self.state = BundleSenderState::WaitingForLeader;
                command = RelayCommand::OpenResultStream;
            },
            (BundleSenderState::WaitingForLeader, RelayEvent::LeaderDistance { slots }) => {
                if slots <= threshold {
                    self.state = BundleSenderState::Submitted;
                    command = RelayCommand::SubmitBundle;
                } else {
                    command = RelayCommand::PollLeader;
                }
            },
            (BundleSenderState::Submitted, RelayEvent::BundleLanded { slot }) => {
                self.state = BundleSenderState::Confirmed { slot };
                command = RelayCommand::Hold;
            },
            (BundleSenderState::Submitted, RelayEvent::BundleRejected { reason }) => {
                self.state = BundleSenderState::Rejected { reason };
                command = RelayCommand::Hold;
            },
            (BundleSenderState::Submitted, RelayEvent::ResultTimeout) => {
                self.state = BundleSenderState::TimedOut;
                command = RelayCommand::Hold;
            },
            _ => {
                command = RelayCommand::Hold;
            },
        }
        command
    }

    /// The attempt's outcome, once the sender reached a terminal state.
    pub fn outcome(&self) -> (r: Option<SubmissionOutcome>)
        ensures
            r == outcome_spec(self.state),
    {
        match self.state {
            BundleSenderState::Confirmed { slot } => Option::Some(
                SubmissionOutcome::Landed { slot },
            ),
            BundleSenderState::Rejected { reason } => Option::Some(
                SubmissionOutcome::Rejected { reason },
            ),
            BundleSenderState::TimedOut => Option::Some(SubmissionOutcome::Unknown),
            _ => Option::None,
        }
    }
}

/// The state after a run of events from `start`.
pub open spec fn bundle_state_after(
    start: BundleSenderState,
    threshold: u64,
    events: Seq<RelayEvent>,
) -> BundleSenderState
    decreases events.len(),
{
    if events.len() == 0 {
        start
    } else {
        bundle_step_spec(
            bundle_state_after(start, threshold, events.drop_last()),
            threshold,
            events.last(),
        ).0
    }
}

/// The command emitted at step `i` of a run of events from `start`.
pub open spec fn bundle_command_at(
    start: BundleSenderState,
    threshold: u64,
    events: Seq<RelayEvent>,
    i: int,
) -> RelayCommand {
    bundle_step_spec(bundle_state_after(start, threshold, events.take(i)), threshold, events[i]).1
}

/// The sender has submitted, or finished, this bundle's one attempt.
pub open spec fn past_waiting(state: BundleSenderState) -> bool {
    match state {
        BundleSenderState::Idle | BundleSenderState::WaitingForLeader => false,
        _ => true,
    }
}

/// A terminal state is absorbing: once the attempt is confirmed, rejected or
/// timed out, no event moves the sender or makes it act again. Retrying
/// means reassembling a fresh bundle and re-entering at `Idle`.
pub proof fn lemma_terminal_states_are_absorbing(
    state: BundleSenderState,
    threshold: u64,
    event: RelayEvent,
)
    requires
        outcome_spec(state) is Some,
    ensures
        bundle_step_spec(state, threshold, event) == (state, RelayCommand::Hold),
{
}

proof fn lemma_past_waiting_after_run(
    start: BundleSenderState,
    threshold: u64,
    events: Seq<RelayEvent>,
)
    requires
        past_waiting(start),
    ensures
        past_waiting(bundle_state_after(start, threshold, events)),
    decreases events.len(),
{
    if events.len() > 0 {
        lemma_past_waiting_after_run(start, threshold, events.drop_last());
    }
}

proof fn lemma_state_after_append(
    start: BundleSenderState,
    threshold: u64,
    a: Seq<RelayEvent>,
    b: Seq<RelayEvent>,
)
    ensures
        bundle_state_after(start, threshold, a + b) == bundle_state_after(
            bundle_state_after(start, threshold, a),
            threshold,
            b,
        ),
    decreases b.len(),
{
    if b.len() == 0 {
        assert(a + b =~= a);
    } else {
        assert((a + b).drop_last() =~= a + b.drop_last());
        lemma_state_after_append(start, threshold, a, b.drop_last());
    }
}

/// One bundle, one submission: a run from `Idle` emits `SubmitBundle` at
/// most once — the bundle is discarded after one outcome, never reused.
pub proof fn lemma_bundle_submitted_once(
    threshold: u64,
    events: Seq<RelayEvent>,
    i: int,
    j: int,
)
    requires
        0 <= i < events.len(),
        0 <= j < events.len(),
        bundle_command_at(BundleSenderState::Idle, threshold, events, i)
            == RelayCommand::SubmitBundle,
        bundle_command_at(BundleSenderState::Idle, threshold, events, j)
            == RelayCommand::SubmitBundle,
    ensures
        i == j,
{
    if i < j {
        lemma_no_resubmission(threshold, events, i, j);
    } else if j < i {
        lemma_no_resubmission(threshold, events, j, i);
    }
}

proof fn lemma_no_resubmission(threshold: u64, events: Seq<RelayEvent>, i: int, j: int)
    requires
        0 <= i < j < events.len(),
        bundle_command_at(BundleSenderState::Idle, threshold, events, i)
            == RelayCommand::SubmitBundle,
    ensures
        bundle_command_at(BundleSenderState::Idle, threshold, events, j)
            != RelayCommand::SubmitBundle,
{
    let start = BundleSenderState::Idle;
    // The step that submitted left the sender in `Submitted`.
    assert(events.take(i + 1).drop_last() =~= events.take(i));
    assert(bundle_state_after(start, threshold, events.take(i + 1))
        == BundleSenderState::Submitted);
    // Every later prefix keeps the sender past `WaitingForLeader`, and only
    // `WaitingForLeader` can submit.
    let middle = events.subrange(i + 1, j);
    assert(events.take(i + 1) + middle =~= events.take(j));
    lemma_state_after_append(start, threshold, events.take(i + 1), middle);
    lemma_past_waiting_after_run(BundleSenderState::Submitted, threshold, middle);
}

/// The sender never submits while the next producer is farther than the
/// threshold: in any run, a step that emits `SubmitBundle` was driven by a
/// leader distance at or below the threshold.
pub proof fn lemma_no_premature_submission(
    start: BundleSenderState,
    threshold: u64,
    events: Seq<RelayEvent>,
    i: int,
)
    requires
        0 <= i < events.len(),
        bundle_command_at(start, threshold, events, i) == RelayCommand::SubmitBundle,
    ensures
        events[i] matches RelayEvent::LeaderDistance { slots } && slots <= threshold,
{
}

/// A run from `Idle` that has left `Idle` opened the result subscription at
/// some earlier step.
pub proof fn lemma_departed_idle_subscribed(threshold: u64, events: Seq<RelayEvent>)
    requires
        bundle_state_after(BundleSenderState::Idle, threshold, events)
            != BundleSenderState::Idle,
    ensures
        exists|j: int|
            0 <= j < events.len() && bundle_command_at(
                BundleSenderState::Idle,
                threshold,
                events,
                j,
            ) == RelayCommand::OpenResultStream,
    decreases events.len(),
{
    let n = events.len() as int;
    let prior = bundle_state_after(BundleSenderState::Idle, threshold, events.drop_last());
    if prior != BundleSenderState::Idle {
        lemma_departed_idle_subscribed(threshold, events.drop_last());
        let j = choose|j: int|
            0 <= j < events.drop_last().len() && bundle_command_at(
                BundleSenderState::Idle,
                threshold,
                events.drop_last(),
                j,
            ) == RelayCommand::OpenResultStream;
        assert(events.drop_last().take(j) =~= events.take(j));
        assert(bundle_command_at(BundleSenderState::Idle, threshold, events, j)
            == RelayCommand::OpenResultStream);
    } else {
        // The final event itself left `Idle`, so it was a dispatch request
        // and its command opened the subscription.
        assert(events.take(n - 1) =~= events.drop_last());
        assert(bundle_command_at(BundleSenderState::Idle, threshold, events, n - 1)
            == RelayCommand::OpenResultStream);
    }
}

/// No bundle is submitted before the result subscription is open: in any run
/// from `Idle`, a `SubmitBundle` command is preceded by an
/// `OpenResultStream` command, so no confirmation can be missed to a race
/// between submission and subscription.
pub proof fn lemma_subscription_precedes_submission(
    threshold: u64,
    events: Seq<RelayEvent>,
    i: int,
)
    requires
        0 <= i < events.len(),
        bundle_command_at(BundleSenderState::Idle, threshold, events, i)
            == RelayCommand::SubmitBundle,
    ensures
        exists|j: int|
            0 <= j < i && bundle_command_at(BundleSenderState::Idle, threshold, events, j)
                == RelayCommand::OpenResultStream,
{
    let before = bundle_state_after(BundleSenderState::Idle, threshold, events.take(i));
    assert(before == BundleSenderState::WaitingForLeader);
    lemma_departed_idle_subscribed(threshold, events.take(i));
    let j = choose|j: int|
        0 <= j < events.take(i).len() && bundle_command_at(
            BundleSenderState::Idle,
            threshold,
            events.take(i),
            j,
        ) == RelayCommand::OpenResultStream;
    assert(events.take(i).take(j) =~= events.take(j));
    assert(bundle_command_at(BundleSenderState::Idle, threshold, events, j)
        == RelayCommand::OpenResultStream);
}

/// Drives the sender over a recorded event sequence, returning the commands
/// the runtime must perform, in step order.
pub fn run_relay_session(sender: &mut BundleSender, events: &Vec<RelayEvent>) -> (commands: Vec<
    RelayCommand,
>)
    ensures
        commands@.len() == events@.len(),
        final(sender).leader_slot_threshold == old(sender).leader_slot_threshold,
        final(sender).state == bundle_state_after(
            old(sender).state,
            old(sender).leader_slot_threshold,
            events@,
        ),
        forall|i: int|
            0 <= i < events@.len() ==> commands@[i] == bundle_command_at(
                old(sender).state,
                old(sender).leader_slot_threshold,
                events@,
                i,
            ),
{
    let n = events.len();
    let mut commands: Vec<RelayCommand> = Vec::new();
    let mut i: usize = 0;
    while i < n
        invariant
            i <= n,
            n == events@.len(),
            commands@.len() == i,
            sender.leader_slot_threshold == old(sender).leader_slot_threshold,
            sender.state == bundle_state_after(
                old(sender).state,
                old(sender).leader_slot_threshold,
                events@.take(i as int),
            ),
            forall|k: int|
                0 <= k < i ==> commands@[k] == bundle_command_at(
                    old(sender).state,
                    old(sender).leader_slot_threshold,
                    events@,
                    k,
                ),
        decreases n - i,
    {
        proof {
            assert(events@.take(i as int + 1).drop_last() =~= events@.take(i as int));
            assert(events@.take(i as int + 1).last() == events@[i as int]);
        }
        let command = sender.on_event(events[i]);
        commands.push(command);
        i = i + 1;
    }
    proof {
        assert(events@.take(n as int) =~= events@);
    }
    commands
}

} // verus!
