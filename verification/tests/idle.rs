use g3_transfer::idle::{
    count_idle_tick, idle_blame, idle_check_interval_secs, idle_verdict, observe_tick, IdleBlame,
    IdleCheck, IdleForceQuitReason, IdleVerdict, LegStatus, MaxIdleCount,
    IDLE_CHECK_DEFAULT_MAX_COUNT, IDLE_CHECK_DEFAULT_SECS, IDLE_CHECK_MAXIMUM_SECS,
};

fn leg(idle: bool, no_cached_data: bool) -> LegStatus {
    LegStatus {
        idle,
        no_cached_data,
    }
}

#[test]
fn blame_follows_the_table() {
    for client in [leg(true, true), leg(true, false), leg(false, true), leg(false, false)] {
        assert_eq!(
            idle_blame(leg(true, true), client),
            Some(IdleBlame::HttpUpstreamRead)
        );
        assert_eq!(
            idle_blame(leg(true, false), client),
            Some(IdleBlame::IcapServerWrite)
        );
    }
    for cache in [true, false] {
        assert_eq!(
            idle_blame(leg(false, cache), leg(true, true)),
            Some(IdleBlame::IcapServerRead)
        );
        assert_eq!(
            idle_blame(leg(false, cache), leg(true, false)),
            Some(IdleBlame::HttpClientWrite)
        );
        assert_eq!(idle_blame(leg(false, cache), leg(false, true)), None);
        assert_eq!(idle_blame(leg(false, cache), leg(false, false)), None);
    }
}

#[test]
fn idle_count_rises_when_idle_and_resets_on_progress() {
    assert_eq!(count_idle_tick(0, 1, true), 1);
    assert_eq!(count_idle_tick(3, 2, true), 5);
    assert_eq!(count_idle_tick(3, 2, false), 0);
    assert_eq!(count_idle_tick(usize::MAX - 1, 5, true), usize::MAX);
    assert_eq!(count_idle_tick(usize::MAX, 0, true), usize::MAX);
}

#[test]
fn verdict_needs_idleness_to_blame() {
    let blame = Some(IdleBlame::IcapServerWrite);
    assert_eq!(
        idle_verdict(true, blame, true, None),
        IdleVerdict::Idle(IdleBlame::IcapServerWrite)
    );
    assert_eq!(idle_verdict(true, blame, false, None), IdleVerdict::Continue);
    assert_eq!(idle_verdict(false, blame, true, None), IdleVerdict::Continue);
    assert_eq!(idle_verdict(true, None, true, None), IdleVerdict::Continue);
    assert_eq!(
        idle_verdict(false, None, false, Some(IdleForceQuitReason::ServerQuit)),
        IdleVerdict::ForceQuit(IdleForceQuitReason::ServerQuit)
    );
    assert_eq!(
        idle_verdict(true, blame, false, Some(IdleForceQuitReason::UserBlocked)),
        IdleVerdict::ForceQuit(IdleForceQuitReason::UserBlocked)
    );
    // a forced quit goes before idleness
    assert_eq!(
        idle_verdict(true, blame, true, Some(IdleForceQuitReason::UserBlocked)),
        IdleVerdict::ForceQuit(IdleForceQuitReason::UserBlocked)
    );
    assert_eq!(
        idle_verdict(true, None, true, Some(IdleForceQuitReason::ServerQuit)),
        IdleVerdict::ForceQuit(IdleForceQuitReason::ServerQuit)
    );
}

#[test]
fn interval_is_cut_to_the_maximum() {
    assert_eq!(IDLE_CHECK_DEFAULT_SECS, 60);
    assert_eq!(IDLE_CHECK_MAXIMUM_SECS, 300);
    assert_eq!(IDLE_CHECK_DEFAULT_MAX_COUNT, 5);
    assert_eq!(idle_check_interval_secs(60), 60);
    assert_eq!(idle_check_interval_secs(300), 300);
    assert_eq!(idle_check_interval_secs(301), 300);
    assert_eq!(idle_check_interval_secs(0), 0);
}

#[test]
fn max_idle_count_quits_at_its_maximum() {
    let policy = MaxIdleCount { max_idle_count: 3 };
    assert!(!policy.check_quit(2));
    assert!(policy.check_quit(3));
    assert!(policy.check_quit(4));
    assert_eq!(policy.check_force_quit(), None);
}

/// A policy that says quit at every count and demands a forced quit too.
struct QuitAndForced;

impl IdleCheck for QuitAndForced {
    fn check_quit(&self, _idle_count: usize) -> bool {
        true
    }

    fn check_force_quit(&self) -> Option<IdleForceQuitReason> {
        Some(IdleForceQuitReason::UserBlocked)
    }
}

struct Forced;

impl IdleCheck for Forced {
    fn check_quit(&self, _idle_count: usize) -> bool {
        false
    }

    fn check_force_quit(&self) -> Option<IdleForceQuitReason> {
        Some(IdleForceQuitReason::ServerQuit)
    }
}

#[test]
fn observed_ticks_count_and_decide() {
    let policy = MaxIdleCount { max_idle_count: 3 };
    let blame = Some(IdleBlame::HttpUpstreamRead);
    let mut count = 0;
    assert_eq!(
        observe_tick(&policy, &mut count, 1, true, blame),
        IdleVerdict::Continue
    );
    assert_eq!(count, 1);
    assert_eq!(
        observe_tick(&policy, &mut count, 1, false, None),
        IdleVerdict::Continue
    );
    assert_eq!(count, 0);
    assert_eq!(
        observe_tick(&policy, &mut count, 2, true, blame),
        IdleVerdict::Continue
    );
    assert_eq!(count, 2);
    assert_eq!(
        observe_tick(&policy, &mut count, 1, true, blame),
        IdleVerdict::Idle(IdleBlame::HttpUpstreamRead)
    );
    assert_eq!(count, 3);

    let mut count = 0;
    assert_eq!(
        observe_tick(&Forced, &mut count, 1, false, None),
        IdleVerdict::ForceQuit(IdleForceQuitReason::ServerQuit)
    );
    assert_eq!(count, 0);
}

#[test]
fn forced_quit_goes_before_the_idle_verdict() {
    let blame = Some(IdleBlame::IcapServerWrite);
    let mut count = 0;
    assert_eq!(
        observe_tick(&QuitAndForced, &mut count, 1, true, blame),
        IdleVerdict::ForceQuit(IdleForceQuitReason::UserBlocked)
    );
    assert_eq!(count, 1);
    assert_eq!(
        observe_tick(&QuitAndForced, &mut count, 1, false, None),
        IdleVerdict::ForceQuit(IdleForceQuitReason::UserBlocked)
    );
    assert_eq!(count, 0);
}
