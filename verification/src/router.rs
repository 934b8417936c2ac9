use vstd::prelude::*;

use crate::counter::GossipCounter;

verus! {

/// What a chain-verification collaborator said about a channel
/// announcement's declared funding script, or that no collaborator was
/// configured and the check was skipped.
#[derive(Clone, Copy, Debug, PartialEq, Eq, Structural)]
pub enum FundingScriptCheck {
    NotChecked,
    Matching,
    Mismatched,
}

/// The classification of one gossip message the protocol engine accepted,
/// as the router needs it: the kind, plus the per-kind data-quality facts.
#[derive(Clone, Copy, Debug, PartialEq, Eq, Structural)]
pub enum GossipMessageClass {
    ChannelAnnouncement { funding_script: FundingScriptCheck },
    ChannelUpdate { has_htlc_maximum: bool },
    NodeAnnouncement,
}

/// The kind tag carried downstream with every forwarded message.
#[derive(Clone, Copy, Debug, PartialEq, Eq, Structural)]
pub enum GossipMessageVariant {
    ChannelAnnouncement,
    ChannelUpdate,
    NodeAnnouncement,
    InitialSyncComplete,
}

/// One event handed to the downstream persistence sink: the wall-clock
/// second at which the message was seen, and its kind.
#[derive(Clone, Copy, Debug, PartialEq, Eq, Structural)]
pub struct DetectedGossipMessage {
    pub timestamp_seen: u32,
    pub message: GossipMessageVariant,
}

/// The kind tag under which a classified message is forwarded.
pub open spec fn variant_of(class: GossipMessageClass) -> GossipMessageVariant {
    match class {
        GossipMessageClass::ChannelAnnouncement { .. } => {
            GossipMessageVariant::ChannelAnnouncement
        },
        GossipMessageClass::ChannelUpdate { .. } => GossipMessageVariant::ChannelUpdate,
        GossipMessageClass::NodeAnnouncement => GossipMessageVariant::NodeAnnouncement,
    }
}

/// The counter after one accepted message of class `class` has been tallied.
pub open spec fn counter_after_message(c: GossipCounter, class: GossipMessageClass) -> GossipCounter {
    match class {
        GossipMessageClass::ChannelAnnouncement { funding_script } => {
            GossipCounter {
                channel_announcements: (c.channel_announcements + 1) as u64,
                channel_updates: c.channel_updates,
                channel_announcements_with_mismatched_scripts: if funding_script
                    == FundingScriptCheck::Mismatched {
                    (c.channel_announcements_with_mismatched_scripts + 1) as u64
                } else {
                    c.channel_announcements_with_mismatched_scripts
                },
                channel_updates_without_htlc_max: c.channel_updates_without_htlc_max,
            }
        },
        GossipMessageClass::ChannelUpdate { has_htlc_maximum } => {
            GossipCounter {
                channel_announcements: c.channel_announcements,
                channel_updates: (c.channel_updates + 1) as u64,
                channel_announcements_with_mismatched_scripts:
                    c.channel_announcements_with_mismatched_scripts,
                channel_updates_without_htlc_max: if has_htlc_maximum {
                    c.channel_updates_without_htlc_max
                } else {
                    (c.channel_updates_without_htlc_max + 1) as u64
                },
            }
        },
        GossipMessageClass::NodeAnnouncement => c,
    }
}

/// The counter after one ruled-on message: an event pairs the engine's
/// verdict (accepted or rejected) with the message's classification, and a
/// rejected message leaves every tally as it was.
pub open spec fn counter_after_event(
    c: GossipCounter,
    event: (bool, GossipMessageClass),
) -> GossipCounter {
    if event.0 {
        counter_after_message(c, event.1)
    } else {
        c
    }
}

/// The counter after a whole sequence of ruled-on messages, oldest first.
pub open spec fn counter_after_events(
    c: GossipCounter,
    events: Seq<(bool, GossipMessageClass)>,
) -> GossipCounter
    decreases events.len(),
{
    if events.len() == 0 {
        c
    } else {
        counter_after_event(counter_after_events(c, events.drop_last()), events.last())
    }
}

/// Whether an event is an accepted channel announcement.
pub open spec fn counts_as_announcement(event: (bool, GossipMessageClass)) -> bool {
    event.0 && (event.1 matches GossipMessageClass::ChannelAnnouncement { .. })
}

/// Whether an event is an accepted channel update.
pub open spec fn counts_as_update(event: (bool, GossipMessageClass)) -> bool {
    event.0 && (event.1 matches GossipMessageClass::ChannelUpdate { .. })
}

/// How many events of the sequence are accepted channel announcements.
pub open spec fn accepted_announcements(events: Seq<(bool, GossipMessageClass)>) -> int
    decreases events.len(),
{
    if events.len() == 0 {
        0
    } else {
        accepted_announcements(events.drop_last()) + if counts_as_announcement(events.last()) {
            1int
        } else {
            0int
        }
    }
}

/// How many events of the sequence are accepted channel updates.
pub open spec fn accepted_updates(events: Seq<(bool, GossipMessageClass)>) -> int
    decreases events.len(),
{
    if events.len() == 0 {
        0
    } else {
        accepted_updates(events.drop_last()) + if counts_as_update(events.last()) {
            1int
        } else {
            0int
        }
    }
}

/// Law: a message the engine rejected never changes any tally.
pub proof fn lemma_rejected_changes_nothing(c: GossipCounter, class: GossipMessageClass)
    ensures
        counter_after_event(c, (false, class)) == c,
{
}

/// Law: over any sequence of ruled-on messages, the announcement tally
/// grows by exactly the number of accepted announcements and the update
/// tally by exactly the number of accepted updates — so their sum counts
/// precisely the accepted messages of either kind — and every tally is
/// monotonically non-decreasing. The bounds demand only that no tally
/// overflows its machine word.
pub proof fn lemma_counter_evolution(c: GossipCounter, events: Seq<(bool, GossipMessageClass)>)
    requires
        c.channel_announcements + accepted_announcements(events) <= u64::MAX,
        c.channel_updates + accepted_updates(events) <= u64::MAX,
        c.channel_announcements_with_mismatched_scripts + accepted_announcements(events)
            <= u64::MAX,
        c.channel_updates_without_htlc_max + accepted_updates(events) <= u64::MAX,
    ensures
        counter_after_events(c, events).channel_announcements == c.channel_announcements
            + accepted_announcements(events),
        counter_after_events(c, events).channel_updates == c.channel_updates + accepted_updates(
            events,
        ),
        counter_after_events(c, events).channel_announcements + counter_after_events(
            c,
            events,
        ).channel_updates == c.channel_announcements + c.channel_updates + accepted_announcements(
            events,
        ) + accepted_updates(events),
        counter_after_events(c, events).channel_announcements_with_mismatched_scripts
            <= c.channel_announcements_with_mismatched_scripts + accepted_announcements(events),
        counter_after_events(c, events).channel_updates_without_htlc_max
            <= c.channel_updates_without_htlc_max + accepted_updates(events),
        c.le(counter_after_events(c, events)),
    decreases events.len(),
{
    lemma_accepted_counts_nonnegative(events);
    if events.len() != 0 {
        lemma_accepted_counts_nonnegative(events.drop_last());
        lemma_counter_evolution(c, events.drop_last());
    }
}

/// Both accepted-message counts are counts: never negative.
pub proof fn lemma_accepted_counts_nonnegative(events: Seq<(bool, GossipMessageClass)>)
    ensures
        accepted_announcements(events) >= 0,
        accepted_updates(events) >= 0,
    decreases events.len(),
{
    if events.len() != 0 {
        lemma_accepted_counts_nonnegative(events.drop_last());
    }
}

/// Classifies and counts every message the protocol engine accepts, and
/// builds the event that is forwarded downstream.
///
/// The engine itself (decoding, validation, the routing graph) is an outside
/// collaborator: the caller first runs the engine's own acceptance routine
/// and hands its verdict in as `accepted`, so that a rejected message
/// provably leaves the tallies untouched.
pub struct GossipRouter {
    pub counter: GossipCounter,
}

impl GossipRouter {
    /// A router whose tallies start at zero.
    pub fn new() -> (r: GossipRouter)
        ensures
            r.counter.channel_announcements == 0,
            r.counter.channel_updates == 0,
            r.counter.channel_announcements_with_mismatched_scripts == 0,
            r.counter.channel_updates_without_htlc_max == 0,
    {
        GossipRouter { counter: GossipCounter::new() }
    }

    /// Handles one gossip message after the engine has ruled on it.
    ///
    /// If the engine rejected the message (`accepted` is false) nothing
    /// changes and nothing is forwarded. If it accepted the message, the
    /// tallies grow by exactly that message's classification and the event
    /// to hand downstream is returned; the caller enqueues it best-effort.
    pub fn handle_message(
        &mut self,
        accepted: bool,
        class: GossipMessageClass,
        timestamp_seen: u32,
    ) -> (r: Option<DetectedGossipMessage>)
        requires
            old(self).counter.channel_announcements < u64::MAX,
            old(self).counter.channel_updates < u64::MAX,
            old(self).counter.channel_announcements_with_mismatched_scripts < u64::MAX,
            old(self).counter.channel_updates_without_htlc_max < u64::MAX,
        ensures
            accepted ==> final(self).counter == counter_after_message(old(self).counter, class),
            !accepted ==> final(self).counter == old(self).counter,
            accepted <==> r is Some,
            accepted ==> (r matches Some(m) && m.timestamp_seen == timestamp_seen && m.message
                == variant_of(class)),
            old(self).counter.le(final(self).counter),
    {
        if !accepted {
            return None;
        }
        match class {
            GossipMessageClass::ChannelAnnouncement { funding_script } => {
                self.counter.channel_announcements = self.counter.channel_announcements + 1;
                if funding_script == FundingScriptCheck::Mismatched {
                    self.counter.channel_announcements_with_mismatched_scripts =
                        self.counter.channel_announcements_with_mismatched_scripts + 1;
                }
                Some(
                    DetectedGossipMessage {
                        timestamp_seen,
                        message: GossipMessageVariant::ChannelAnnouncement,
                    },
                )
            },
            GossipMessageClass::ChannelUpdate { has_htlc_maximum } => {
                self.counter.channel_updates = self.counter.channel_updates + 1;
                if !has_htlc_maximum {
                    self.counter.channel_updates_without_htlc_max =
                        self.counter.channel_updates_without_htlc_max + 1;
                }
                Some(
                    DetectedGossipMessage {
                        timestamp_seen,
                        message: GossipMessageVariant::ChannelUpdate,
                    },
                )
            },
            GossipMessageClass::NodeAnnouncement => {
                Some(
                    DetectedGossipMessage {
                        timestamp_seen,
                        message: GossipMessageVariant::NodeAnnouncement,
                    },
                )
            },
        }
    }
}

} // verus!
