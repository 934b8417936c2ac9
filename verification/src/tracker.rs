use vstd::prelude::*;

use crate::router::DetectedGossipMessage;
use crate::router::GossipMessageVariant;

verus! {

/// The tunable constants of the sync-completion heuristic.
#[derive(Clone, Copy, Debug, PartialEq, Eq, Structural)]
pub struct TrackerConfig {
    /// A tick counts as converged when fewer than this many new messages
    /// arrived since the previous tick.
    pub new_message_threshold: u64,
    /// A warning is due once no new message has arrived for longer than
    /// this many seconds.
    pub stall_window_seconds: u64,
    /// How often the tracker samples the counter, in seconds. The timer
    /// itself runs outside this library; the value is carried here so that
    /// all tuning lives in one record.
    pub poll_period_seconds: u64,
}

impl TrackerConfig {
    /// The constants of the observed design: a 5-second poll, fewer than 20
    /// new messages per tick counts as converged, and a 10-minute stall
    /// window.
    pub fn default_config() -> (r: TrackerConfig)
        ensures
            r.new_message_threshold == 20,
            r.stall_window_seconds == 600,
            r.poll_period_seconds == 5,
    {
        TrackerConfig { new_message_threshold: 20, stall_window_seconds: 600, poll_period_seconds: 5 }
    }
}

/// The tracker's private per-tick state: the counter snapshot of the
/// previous tick, whether that tick judged the node caught up, when a new
/// message was last observed, and whether the current stall (if any) has
/// already been reported.
#[derive(Clone, Copy, Debug, PartialEq, Eq, Structural)]
pub struct SyncState {
    pub previous_announcement_count: u64,
    pub previous_update_count: u64,
    pub is_caught_up: bool,
    pub last_new_message_time: u64,
    pub stall_warning_issued: bool,
}

impl SyncState {
    /// The state at startup: nothing seen yet, not caught up, and the stall
    /// clock starting at `start_time` (seconds).
    pub fn new(start_time: u64) -> (r: SyncState)
        ensures
            r.previous_announcement_count == 0,
            r.previous_update_count == 0,
            !r.is_caught_up,
            r.last_new_message_time == start_time,
            !r.stall_warning_issued,
    {
        SyncState {
            previous_announcement_count: 0,
            previous_update_count: 0,
            is_caught_up: false,
            last_new_message_time: start_time,
            stall_warning_issued: false,
        }
    }
}

/// How many messages arrived since the tick that recorded `state`:
/// the counter totals now, minus the totals then.
pub open spec fn spec_delta(state: SyncState, announcements: u64, updates: u64) -> int {
    (announcements + updates) - (state.previous_announcement_count
        + state.previous_update_count)
}

/// The convergence heuristic: the node counts as caught up when fewer than
/// `threshold` new messages arrived since the previous tick, and at least
/// one announcement and one update have ever been seen (so that a quiet
/// cold start is never mistaken for convergence).
pub open spec fn spec_caught_up(
    state: SyncState,
    announcements: u64,
    updates: u64,
    threshold: u64,
) -> bool {
    &&& spec_delta(state, announcements, updates) < threshold
    &&& state.previous_announcement_count > 0
    &&& state.previous_update_count > 0
}

/// Whether a tick on `state` with snapshot (`announcements`, `updates`)
/// emits the one completion event: the heuristic holds now and did not hold
/// at the previous tick (edge-triggered).
pub open spec fn spec_completion_fires(
    state: SyncState,
    announcements: u64,
    updates: u64,
    threshold: u64,
) -> bool {
    spec_caught_up(state, announcements, updates, threshold) && !state.is_caught_up
}

/// Whether a tick raises the stall warning: no message has arrived this
/// tick, none arrived for longer than the stall window, and the current
/// stall has not been reported yet.
pub open spec fn spec_stall_warning_fires(
    state: SyncState,
    config: TrackerConfig,
    announcements: u64,
    updates: u64,
    now_seconds: u64,
) -> bool {
    &&& spec_delta(state, announcements, updates) == 0
    &&& now_seconds - state.last_new_message_time > config.stall_window_seconds
    &&& !state.stall_warning_issued
}

/// The tracker state after one tick on `state` with the counter snapshot
/// (`announcements`, `updates`) taken at `now_seconds`.
pub open spec fn spec_tick_state(
    state: SyncState,
    config: TrackerConfig,
    announcements: u64,
    updates: u64,
    now_seconds: u64,
) -> SyncState {
    SyncState {
        previous_announcement_count: announcements,
        previous_update_count: updates,
        is_caught_up: spec_caught_up(state, announcements, updates, config.new_message_threshold),
        last_new_message_time: if spec_delta(state, announcements, updates) > 0 {
            now_seconds
        } else {
            state.last_new_message_time
        },
        stall_warning_issued: if spec_delta(state, announcements, updates) > 0 {
            false
        } else {
            state.stall_warning_issued || spec_stall_warning_fires(
                state,
                config,
                announcements,
                updates,
                now_seconds,
            )
        },
    }
}

/// Law: the completion event fires exactly on a tick where the convergence
/// heuristic holds but did not hold at the previous tick — the first tick
/// of every caught-up stretch, including one at the very start.
pub proof fn lemma_completion_fires_on_first_true(
    state: SyncState,
    announcements: u64,
    updates: u64,
    threshold: u64,
)
    requires
        !state.is_caught_up,
        spec_caught_up(state, announcements, updates, threshold),
    ensures
        spec_completion_fires(state, announcements, updates, threshold),
{
}

/// Law: the completion event never fires twice for consecutive caught-up
/// ticks. Once a tick judged the node caught up, the very next tick cannot
/// fire again, whatever its snapshot; only after a tick on which the
/// heuristic turned false can the edge refire.
pub proof fn lemma_completion_not_repeated(
    state: SyncState,
    config: TrackerConfig,
    announcements1: u64,
    updates1: u64,
    now1: u64,
    announcements2: u64,
    updates2: u64,
)
    requires
        spec_caught_up(state, announcements1, updates1, config.new_message_threshold),
    ensures
        !spec_completion_fires(
            spec_tick_state(state, config, announcements1, updates1, now1),
            announcements2,
            updates2,
            config.new_message_threshold,
        ),
{
}

/// Law: at cold start the convergence heuristic is false. While either
/// previous count is still zero, no snapshot and no delta can make the node
/// count as caught up.
pub proof fn lemma_cold_start_not_caught_up(
    state: SyncState,
    announcements: u64,
    updates: u64,
    threshold: u64,
)
    requires
        state.previous_announcement_count == 0 || state.previous_update_count == 0,
    ensures
        !spec_caught_up(state, announcements, updates, threshold),
{
}

/// Law: a continuous stall produces at most one warning. A tick that
/// raises the warning leaves the stall marked as reported, and the very
/// next tick cannot raise it again.
pub proof fn lemma_stall_warning_once(
    state: SyncState,
    config: TrackerConfig,
    announcements1: u64,
    updates1: u64,
    now1: u64,
    announcements2: u64,
    updates2: u64,
    now2: u64,
)
    requires
        spec_stall_warning_fires(state, config, announcements1, updates1, now1),
    ensures
        spec_tick_state(state, config, announcements1, updates1, now1).stall_warning_issued,
        !spec_stall_warning_fires(
            spec_tick_state(state, config, announcements1, updates1, now1),
            config,
            announcements2,
            updates2,
            now2,
        ),
{
}

/// Law: while the stall goes on, the reported mark stays set and keeps
/// further warnings suppressed; only a tick that observes a new message
/// clears it and arms the watchdog for the next stall period.
pub proof fn lemma_stall_warning_suppressed_while_stalled(
    state: SyncState,
    config: TrackerConfig,
    announcements: u64,
    updates: u64,
    now_seconds: u64,
)
    requires
        state.stall_warning_issued,
        spec_delta(state, announcements, updates) == 0,
    ensures
        !spec_stall_warning_fires(state, config, announcements, updates, now_seconds),
        spec_tick_state(state, config, announcements, updates, now_seconds).stall_warning_issued,
{
}

/// The inputs one tick reads: the counter snapshot and the clock.
#[derive(Clone, Copy, Debug, PartialEq, Eq, Structural)]
pub struct TickInput {
    pub announcements: u64,
    pub updates: u64,
    pub now_seconds: u64,
}

/// The tracker state after a whole run of ticks, oldest first.
pub open spec fn state_after_ticks(
    s: SyncState,
    config: TrackerConfig,
    inputs: Seq<TickInput>,
) -> SyncState
    decreases inputs.len(),
{
    if inputs.len() == 0 {
        s
    } else {
        spec_tick_state(
            state_after_ticks(s, config, inputs.drop_last()),
            config,
            inputs.last().announcements,
            inputs.last().updates,
            inputs.last().now_seconds,
        )
    }
}

/// How many ticks of the run emit the completion event.
pub open spec fn completions_fired(
    s: SyncState,
    config: TrackerConfig,
    inputs: Seq<TickInput>,
) -> int
    decreases inputs.len(),
{
    if inputs.len() == 0 {
        0
    } else {
        completions_fired(s, config, inputs.drop_last()) + if spec_completion_fires(
            state_after_ticks(s, config, inputs.drop_last()),
            inputs.last().announcements,
            inputs.last().updates,
            config.new_message_threshold,
        ) {
            1int
        } else {
            0int
        }
    }
}

/// Whether the convergence heuristic holds at every tick of the run.
pub open spec fn all_ticks_caught_up(
    s: SyncState,
    config: TrackerConfig,
    inputs: Seq<TickInput>,
) -> bool
    decreases inputs.len(),
{
    if inputs.len() == 0 {
        true
    } else {
        all_ticks_caught_up(s, config, inputs.drop_last()) && spec_caught_up(
            state_after_ticks(s, config, inputs.drop_last()),
            inputs.last().announcements,
            inputs.last().updates,
            config.new_message_threshold,
        )
    }
}

/// Law: over any nonempty run of ticks on which the convergence heuristic
/// holds throughout, the completion event is emitted exactly once if the
/// run starts in a not-caught-up state, and never if it starts caught up —
/// one notification per caught-up stretch, at its first tick.
pub proof fn lemma_one_completion_per_caught_up_stretch(
    s: SyncState,
    config: TrackerConfig,
    inputs: Seq<TickInput>,
)
    requires
        inputs.len() > 0,
        all_ticks_caught_up(s, config, inputs),
    ensures
        completions_fired(s, config, inputs) == if s.is_caught_up {
            0int
        } else {
            1int
        },
        state_after_ticks(s, config, inputs).is_caught_up,
    decreases inputs.len(),
{
    if inputs.len() == 1 {
        assert(state_after_ticks(s, config, inputs.drop_last()) == s);
        assert(completions_fired(s, config, inputs.drop_last()) == 0);
    } else {
        lemma_one_completion_per_caught_up_stretch(s, config, inputs.drop_last());
    }
}

/// How many ticks of the run raise the stall warning.
pub open spec fn stall_warnings_fired(
    s: SyncState,
    config: TrackerConfig,
    inputs: Seq<TickInput>,
) -> int
    decreases inputs.len(),
{
    if inputs.len() == 0 {
        0
    } else {
        stall_warnings_fired(s, config, inputs.drop_last()) + if spec_stall_warning_fires(
            state_after_ticks(s, config, inputs.drop_last()),
            config,
            inputs.last().announcements,
            inputs.last().updates,
            inputs.last().now_seconds,
        ) {
            1int
        } else {
            0int
        }
    }
}

/// Whether the run is one continuous stall: no tick of it observes a new
/// message.
pub open spec fn all_ticks_stalled(
    s: SyncState,
    config: TrackerConfig,
    inputs: Seq<TickInput>,
) -> bool
    decreases inputs.len(),
{
    if inputs.len() == 0 {
        true
    } else {
        all_ticks_stalled(s, config, inputs.drop_last()) && spec_delta(
            state_after_ticks(s, config, inputs.drop_last()),
            inputs.last().announcements,
            inputs.last().updates,
        ) == 0
    }
}

/// Law: a continuous stall produces at most one warning over its whole
/// length, none at all if it was already reported when the run began, and
/// the reported mark afterwards records whether a warning was raised.
pub proof fn lemma_one_warning_per_stall_period(
    s: SyncState,
    config: TrackerConfig,
    inputs: Seq<TickInput>,
)
    requires
        all_ticks_stalled(s, config, inputs),
    ensures
        0 <= stall_warnings_fired(s, config, inputs) <= 1,
        s.stall_warning_issued ==> stall_warnings_fired(s, config, inputs) == 0,
        state_after_ticks(s, config, inputs).stall_warning_issued == (s.stall_warning_issued
            || stall_warnings_fired(s, config, inputs) == 1),
    decreases inputs.len(),
{
    if inputs.len() > 0 {
        lemma_one_warning_per_stall_period(s, config, inputs.drop_last());
    }
}

/// What one tick asks its caller to do: possibly hand the completion event
/// downstream, and possibly raise the stall warning.
#[derive(Clone, Copy, Debug, PartialEq, Eq, Structural)]
pub struct TickOutcome {
    pub completion: Option<DetectedGossipMessage>,
    pub stall_warning: bool,
}

/// One tick of the sync-completion tracker.
///
/// The caller samples the gossip counter under a single read-lock
/// acquisition and hands the snapshot in, together with the wall clock in
/// seconds; the tick decides everything else. The counter snapshot can only
/// have grown since the previous tick, and the clock never runs backwards:
/// both are demanded here and hold of every run of the surrounding loop.
pub fn tick(
    state: &mut SyncState,
    config: &TrackerConfig,
    announcements: u64,
    updates: u64,
    now_seconds: u64,
) -> (r: TickOutcome)
    requires
        old(state).previous_announcement_count <= announcements,
        old(state).previous_update_count <= updates,
        announcements + updates <= u64::MAX,
        old(state).last_new_message_time <= now_seconds,
        now_seconds <= u32::MAX,
    ensures
        *final(state) == spec_tick_state(*old(state), *config, announcements, updates, now_seconds),
        r.completion is Some <==> spec_completion_fires(
            *old(state),
            announcements,
            updates,
            config.new_message_threshold,
        ),
        r.completion matches Some(m) ==> m.timestamp_seen == now_seconds as u32 && m.message
            == GossipMessageVariant::InitialSyncComplete,
        r.stall_warning == spec_stall_warning_fires(
            *old(state),
            *config,
            announcements,
            updates,
            now_seconds,
        ),
{
    let total: u64 = announcements + updates;
    let previous_total: u64 = state.previous_announcement_count + state.previous_update_count;
    let delta: u64 = total - previous_total;

    let was_caught_up: bool = state.is_caught_up;
    let caught_up: bool = delta < config.new_message_threshold
        && state.previous_announcement_count > 0 && state.previous_update_count > 0;

    let completion: Option<DetectedGossipMessage> = if caught_up && !was_caught_up {
        Some(
            DetectedGossipMessage {
                timestamp_seen: now_seconds as u32,
                message: GossipMessageVariant::InitialSyncComplete,
            },
        )
    } else {
        None
    };

    let mut stall_warning: bool = false;
    if delta > 0 {
        state.last_new_message_time = now_seconds;
        state.stall_warning_issued = false;
    } else {
        let stalled_for: u64 = now_seconds - state.last_new_message_time;
        if stalled_for > config.stall_window_seconds && !state.stall_warning_issued {
            stall_warning = true;
            state.stall_warning_issued = true;
        }
    }

    state.previous_announcement_count = announcements;
    state.previous_update_count = updates;
    state.is_caught_up = caught_up;

    TickOutcome { completion, stall_warning }
}

} // verus!
