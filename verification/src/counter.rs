use vstd::prelude::*;

verus! {

/// Running tallies of the gossip messages that the protocol engine has
/// accepted, together with two data-quality sub-tallies.
///
/// The counter is owned by the router's write path; every other reader takes
/// a shared snapshot and never mutates it. The fields only ever grow.
#[derive(Clone, Copy, Debug, PartialEq, Eq, Structural)]
pub struct GossipCounter {
    pub channel_announcements: u64,
    pub channel_updates: u64,
    pub channel_announcements_with_mismatched_scripts: u64,
    pub channel_updates_without_htlc_max: u64,
}

impl GossipCounter {
    /// A fresh counter, before any gossip has been observed.
    pub fn new() -> (r: GossipCounter)
        ensures
            r.channel_announcements == 0,
            r.channel_updates == 0,
            r.channel_announcements_with_mismatched_scripts == 0,
            r.channel_updates_without_htlc_max == 0,
    {
        GossipCounter {
            channel_announcements: 0,
            channel_updates: 0,
            channel_announcements_with_mismatched_scripts: 0,
            channel_updates_without_htlc_max: 0,
        }
    }

    /// True when every tally of `self` is at most the matching tally of
    /// `other`: the order in which a counter grows over its lifetime.
    pub open spec fn le(self, other: GossipCounter) -> bool {
        &&& self.channel_announcements <= other.channel_announcements
        &&& self.channel_updates <= other.channel_updates
        &&& self.channel_announcements_with_mismatched_scripts
            <= other.channel_announcements_with_mismatched_scripts
        &&& self.channel_updates_without_htlc_max <= other.channel_updates_without_htlc_max
    }
}

} // verus!
