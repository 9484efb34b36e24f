//! The kill-switch state machine.
//!
//! The manager tracks tunnel health as a small fail-closed state machine and
//! publishes every change through a single-writer, multi-reader watch cell.
//! Constructed disabled, it ignores every request and stays `Disabled`
//! forever; constructed enabled, it publishes each requested state in order.

use tokio::sync::watch;
use vstd::prelude::*;

verus! {

/// `KillSwitchState` represents the current state of the kill switch.
#[derive(Debug, Clone, Copy, PartialEq, Eq, Structural)]
pub enum KillSwitchState {
    /// The secure tunnel is active and healthy.
    Active,
    /// The secure tunnel is compromised or disconnected: network access
    /// should be blocked by the enforcement collaborator.
    Triggered,
    /// The kill switch is disabled.
    Disabled,
}

/// What one `set_state` request does to the published log: an enabled manager
/// appends the requested state, a disabled one ignores it.
pub open spec fn step_state(
    enabled: bool,
    log: Seq<KillSwitchState>,
    req: KillSwitchState,
) -> Seq<KillSwitchState> {
    if enabled {
        log.push(req)
    } else {
        log
    }
}

/// The published log after a whole sequence of `set_state` requests.
pub open spec fn run_states(
    enabled: bool,
    log: Seq<KillSwitchState>,
    reqs: Seq<KillSwitchState>,
) -> Seq<KillSwitchState>
    decreases reqs.len(),
{
    if reqs.len() == 0 {
        log
    } else {
        run_states(enabled, step_state(enabled, log, reqs.first()), reqs.drop_first())
    }
}

/// `KillSwitchManager` manages the state and logic of the kill switch: the
/// single writer of the shared state cell.
pub struct KillSwitchManager {
    state_sender: watch::Sender<KillSwitchState>,
    state_receiver: watch::Receiver<KillSwitchState>,
    is_enabled: bool,
    current: KillSwitchState,
    published: Ghost<Seq<KillSwitchState>>,
}

impl KillSwitchManager {
    /// Whether the kill switch was enabled by configuration.
    pub closed spec fn enabled(self) -> bool {
        self.is_enabled
    }

    /// The state a subscriber observes now: the last published value.
    pub closed spec fn observed(self) -> KillSwitchState {
        self.current
    }

    /// Every value the state cell has held, in order, oldest first.
    pub closed spec fn published_log(self) -> Seq<KillSwitchState> {
        self.published@
    }

    /// The cell starts out `Disabled`, the observed state is the last
    /// published value, and a disabled manager never publishes anything else.
    pub open spec fn wf(self) -> bool {
        &&& self.published_log().len() >= 1
        &&& self.published_log().first() == KillSwitchState::Disabled
        &&& self.published_log().last() == self.observed()
        &&& (!self.enabled() ==> self.published_log() == seq![KillSwitchState::Disabled])
    }

    /// Creates a new `KillSwitchManager`. Its initial state is `Disabled`
    /// whether or not it is enabled: an enabled manager waits for tunnel
    /// activation before going `Active`.
    pub fn new(enabled_by_config: bool) -> (r: Self)
        ensures
            r.wf(),
            r.enabled() == enabled_by_config,
            r.observed() == KillSwitchState::Disabled,
            r.published_log() == seq![KillSwitchState::Disabled],
    {
        let (state_sender, state_receiver) = watch_channel(KillSwitchState::Disabled);
        let ghost initial_log: Seq<KillSwitchState> = seq![KillSwitchState::Disabled];
        KillSwitchManager {
            state_sender,
            state_receiver,
            is_enabled: enabled_by_config,
            current: KillSwitchState::Disabled,
            published: Ghost(initial_log),
        }
    }

    /// Returns a receiver to monitor the kill-switch state: it yields the
    /// current value and every subsequent change.
    pub fn subscribe_state(&self) -> watch::Receiver<KillSwitchState> {
        watch_subscribe(&self.state_receiver)
    }

    /// The state the manager holds now: what a fresh subscriber observes.
    pub fn current_state(&self) -> (r: KillSwitchState)
        ensures
            r == self.observed(),
    {
        self.current
    }

    /// Whether the kill switch was enabled by configuration.
    pub fn is_enabled(&self) -> (r: bool)
        ensures
            r == self.enabled(),
    {
        self.is_enabled
    }

    /// Sets the kill-switch state, called by the core when tunnel status
    /// changes. If the manager is disabled this is a no-op: the observable
    /// state remains `Disabled` forever.
    pub fn set_state(&mut self, new_state: KillSwitchState)
        requires
            old(self).wf(),
        ensures
            final(self).wf(),
            final(self).enabled() == old(self).enabled(),
            final(self).published_log() == step_state(
                old(self).enabled(),
                old(self).published_log(),
                new_state,
            ),
            final(self).observed() == (if old(self).enabled() {
                new_state
            } else {
                old(self).observed()
            }),
    {
        if self.is_enabled {
            watch_send(&self.state_sender, new_state);
            self.current = new_state;
            let ghost log = self.published@.push(new_state);
            self.published = Ghost(log);
        }
    }
}

/// Law: a manager constructed disabled never changes its observable state.
/// Whatever sequence of requests arrives, the published log stays exactly the
/// single initial `Disabled` value.
pub proof fn lemma_disabled_stays_disabled(reqs: Seq<KillSwitchState>)
    ensures
        run_states(false, seq![KillSwitchState::Disabled], reqs) == seq![
            KillSwitchState::Disabled,
        ],
{
    lemma_run_states_disabled(seq![KillSwitchState::Disabled], reqs);
}

/// A disabled manager's log never moves, whatever it holds.
proof fn lemma_run_states_disabled(log: Seq<KillSwitchState>, reqs: Seq<KillSwitchState>)
    ensures
        run_states(false, log, reqs) == log,
    decreases reqs.len(),
{
    if reqs.len() > 0 {
        lemma_run_states_disabled(log, reqs.drop_first());
    }
}

/// Law: an enabled manager publishes the sequence Active, Triggered, Active
/// in exactly that order — each value appended to the log as requested, none
/// skipped — so a subscriber observes each in turn.
pub proof fn lemma_enabled_publishes_in_order(log: Seq<KillSwitchState>)
    ensures
        run_states(
            true,
            log,
            seq![KillSwitchState::Active, KillSwitchState::Triggered, KillSwitchState::Active],
        ) == log + seq![
            KillSwitchState::Active,
            KillSwitchState::Triggered,
            KillSwitchState::Active,
        ],
{
    let reqs = seq![
        KillSwitchState::Active,
        KillSwitchState::Triggered,
        KillSwitchState::Active,
    ];
    let r1 = reqs.drop_first();
    let r2 = r1.drop_first();
    let r3 = r2.drop_first();
    assert(r1 =~= seq![KillSwitchState::Triggered, KillSwitchState::Active]);
    assert(r2 =~= seq![KillSwitchState::Active]);
    assert(r3 =~= Seq::<KillSwitchState>::empty());
    let l1 = log.push(KillSwitchState::Active);
    let l2 = l1.push(KillSwitchState::Triggered);
    let l3 = l2.push(KillSwitchState::Active);
    assert(run_states(true, log, reqs) == run_states(true, l1, r1));
    assert(run_states(true, l1, r1) == run_states(true, l2, r2));
    assert(run_states(true, l2, r2) == run_states(true, l3, r3));
    assert(run_states(true, l3, r3) == l3);
    assert(log.push(KillSwitchState::Active).push(KillSwitchState::Triggered).push(
        KillSwitchState::Active,
    ) =~= log + seq![
        KillSwitchState::Active,
        KillSwitchState::Triggered,
        KillSwitchState::Active,
    ]);
}

/// The tunnel-health sequence the health-check simulation drives the manager
/// through: assume active, simulate a failure, then a recovery.
pub fn health_check_states() -> (r: Vec<KillSwitchState>)
    ensures
        r@ == seq![
            KillSwitchState::Active,
            KillSwitchState::Triggered,
            KillSwitchState::Active,
        ],
{
    let mut r: Vec<KillSwitchState> = Vec::new();
    r.push(KillSwitchState::Active);
    r.push(KillSwitchState::Triggered);
    r.push(KillSwitchState::Active);
    proof {
        assert(r@ =~= seq![
            KillSwitchState::Active,
            KillSwitchState::Triggered,
            KillSwitchState::Active,
        ]);
    }
    r
}

#[verifier::external_type_specification]
#[verifier::external_body]
#[verifier::reject_recursive_types(T)]
pub struct ExWatchSender<T>(watch::Sender<T>);

#[verifier::external_type_specification]
#[verifier::external_body]
#[verifier::reject_recursive_types(T)]
pub struct ExWatchReceiver<T>(watch::Receiver<T>);

/// Relies on tokio::sync::watch::channel: creates the single-writer state
/// cell holding the initial value.
#[verifier::external_body]
fn watch_channel(
    initial: KillSwitchState,
) -> (watch::Sender<KillSwitchState>, watch::Receiver<KillSwitchState>) {
    watch::channel(initial)
}

/// Relies on tokio::sync::watch::Sender::send: replaces the cell's value and
/// notifies all receivers; it fails only when no receiver exists, and the
/// manager keeps one alive, so the result is discarded as the cell then
/// already saw the value.
#[verifier::external_body]
fn watch_send(tx: &watch::Sender<KillSwitchState>, v: KillSwitchState) {
    let _ = tx.send(v);
}

/// Relies on tokio::sync::watch::Receiver::clone: a new receiver observing
/// the same cell from its current value onward.
#[verifier::external_body]
fn watch_subscribe(rx: &watch::Receiver<KillSwitchState>) -> watch::Receiver<KillSwitchState> {
    rx.clone()
}

/// Relies on tokio::sync::watch::Sender::clone: another handle to the same
/// cell.
#[verifier::external_body]
fn watch_sender_clone(tx: &watch::Sender<KillSwitchState>) -> watch::Sender<KillSwitchState> {
    tx.clone()
}

impl Clone for KillSwitchManager {
    /// A clone shares the underlying state cell and carries the same
    /// observable model, so it can drive the same subscribers from another
    /// task.
    fn clone(&self) -> (r: Self)
        ensures
            r.enabled() == self.enabled(),
            r.observed() == self.observed(),
            r.published_log() == self.published_log(),
    {
        KillSwitchManager {
            state_sender: watch_sender_clone(&self.state_sender),
            state_receiver: watch_subscribe(&self.state_receiver),
            is_enabled: self.is_enabled,
            current: self.current,
            published: Ghost(self.published@),
        }
    }
}

} // verus!
