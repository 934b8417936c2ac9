use gossip_sync::counter::GossipCounter;
use gossip_sync::router::DetectedGossipMessage;
use gossip_sync::router::FundingScriptCheck;
use gossip_sync::router::GossipMessageClass;
use gossip_sync::router::GossipMessageVariant;
use gossip_sync::router::GossipRouter;

#[test]
fn fresh_counter_is_all_zero() {
    let c = GossipCounter::new();
    assert_eq!(c.channel_announcements, 0);
    assert_eq!(c.channel_updates, 0);
    assert_eq!(c.channel_announcements_with_mismatched_scripts, 0);
    assert_eq!(c.channel_updates_without_htlc_max, 0);
}

#[test]
fn accepted_announcement_is_counted_and_forwarded() {
    let mut r = GossipRouter::new();
    let ev = r.handle_message(
        true,
        GossipMessageClass::ChannelAnnouncement { funding_script: FundingScriptCheck::Matching },
        1000,
    );
    assert_eq!(r.counter.channel_announcements, 1);
    assert_eq!(r.counter.channel_announcements_with_mismatched_scripts, 0);
    assert_eq!(r.counter.channel_updates, 0);
    assert_eq!(
        ev,
        Some(DetectedGossipMessage {
            timestamp_seen: 1000,
            message: GossipMessageVariant::ChannelAnnouncement,
        })
    );
}

#[test]
fn mismatched_script_announcement_bumps_the_sub_tally() {
    let mut r = GossipRouter::new();
    r.handle_message(
        true,
        GossipMessageClass::ChannelAnnouncement { funding_script: FundingScriptCheck::Mismatched },
        1,
    );
    assert_eq!(r.counter.channel_announcements, 1);
    assert_eq!(r.counter.channel_announcements_with_mismatched_scripts, 1);
}

#[test]
fn unchecked_script_announcement_skips_the_sub_tally() {
    let mut r = GossipRouter::new();
    r.handle_message(
        true,
        GossipMessageClass::ChannelAnnouncement { funding_script: FundingScriptCheck::NotChecked },
        1,
    );
    assert_eq!(r.counter.channel_announcements, 1);
    assert_eq!(r.counter.channel_announcements_with_mismatched_scripts, 0);
}

#[test]
fn update_without_htlc_max_bumps_the_sub_tally() {
    let mut r = GossipRouter::new();
    let ev = r.handle_message(
        true,
        GossipMessageClass::ChannelUpdate { has_htlc_maximum: false },
        77,
    );
    assert_eq!(r.counter.channel_updates, 1);
    assert_eq!(r.counter.channel_updates_without_htlc_max, 1);
    assert_eq!(
        ev,
        Some(DetectedGossipMessage {
            timestamp_seen: 77,
            message: GossipMessageVariant::ChannelUpdate,
        })
    );
}

#[test]
fn update_with_htlc_max_skips_the_sub_tally() {
    let mut r = GossipRouter::new();
    r.handle_message(true, GossipMessageClass::ChannelUpdate { has_htlc_maximum: true }, 77);
    assert_eq!(r.counter.channel_updates, 1);
    assert_eq!(r.counter.channel_updates_without_htlc_max, 0);
}

#[test]
fn node_announcement_is_forwarded_but_not_tallied() {
    let mut r = GossipRouter::new();
    let ev = r.handle_message(true, GossipMessageClass::NodeAnnouncement, 5);
    assert_eq!(r.counter, GossipCounter::new());
    assert_eq!(
        ev,
        Some(DetectedGossipMessage {
            timestamp_seen: 5,
            message: GossipMessageVariant::NodeAnnouncement,
        })
    );
}

#[test]
fn rejected_message_changes_nothing_and_forwards_nothing() {
    let mut r = GossipRouter::new();
    r.handle_message(true, GossipMessageClass::ChannelUpdate { has_htlc_maximum: true }, 1);
    let before = r.counter;
    let ev = r.handle_message(
        false,
        GossipMessageClass::ChannelAnnouncement { funding_script: FundingScriptCheck::Mismatched },
        2,
    );
    assert_eq!(ev, None);
    assert_eq!(r.counter, before);
}

#[test]
fn accepted_channel_gossip_sums_to_the_two_tallies() {
    // A mixed run of verdicts: the announcement and update tallies together
    // must count exactly the accepted messages of those two kinds.
    let mut r = GossipRouter::new();
    let events = [
        (true, GossipMessageClass::ChannelAnnouncement { funding_script: FundingScriptCheck::Matching }),
        (false, GossipMessageClass::ChannelUpdate { has_htlc_maximum: true }),
        (true, GossipMessageClass::ChannelUpdate { has_htlc_maximum: false }),
        (true, GossipMessageClass::NodeAnnouncement),
        (true, GossipMessageClass::ChannelUpdate { has_htlc_maximum: true }),
        (false, GossipMessageClass::NodeAnnouncement),
        (true, GossipMessageClass::ChannelAnnouncement { funding_script: FundingScriptCheck::Mismatched }),
    ];
    let mut accepted_channel_gossip = 0u64;
    for (accepted, class) in events.iter() {
        let forwarded = r.handle_message(*accepted, *class, 9);
        assert_eq!(forwarded.is_some(), *accepted);
        if *accepted {
            match class {
                GossipMessageClass::ChannelAnnouncement { .. }
                | GossipMessageClass::ChannelUpdate { .. } => accepted_channel_gossip += 1,
                GossipMessageClass::NodeAnnouncement => {}
            }
        }
    }
    assert_eq!(
        r.counter.channel_announcements + r.counter.channel_updates,
        accepted_channel_gossip
    );
    assert_eq!(r.counter.channel_announcements, 2);
    assert_eq!(r.counter.channel_updates, 2);
}

#[test]
fn tallies_never_decrease_over_a_run() {
    let mut r = GossipRouter::new();
    let classes = [
        GossipMessageClass::ChannelUpdate { has_htlc_maximum: false },
        GossipMessageClass::NodeAnnouncement,
        GossipMessageClass::ChannelAnnouncement { funding_script: FundingScriptCheck::NotChecked },
        GossipMessageClass::ChannelUpdate { has_htlc_maximum: true },
    ];
    let mut previous = r.counter;
    for (i, class) in classes.iter().enumerate() {
        r.handle_message(i % 2 == 0, *class, 3);
        assert!(previous.channel_announcements <= r.counter.channel_announcements);
        assert!(previous.channel_updates <= r.counter.channel_updates);
        assert!(
            previous.channel_announcements_with_mismatched_scripts
                <= r.counter.channel_announcements_with_mismatched_scripts
        );
        assert!(
            previous.channel_updates_without_htlc_max
                <= r.counter.channel_updates_without_htlc_max
        );
        previous = r.counter;
    }
}
