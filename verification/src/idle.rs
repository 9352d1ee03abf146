//! Counting idle intervals and deciding who is to blame for them.
//!
//! A task is ticked at a fixed interval. A tick that found every watched leg
//! idle for the whole interval adds to the idle count; any progress resets
//! it. Whether a count is reason to quit is the policy of an [`IdleCheck`],
//! which may also demand that the task quits at once.

use vstd::prelude::*;

verus! {

/// The seconds between two idle checks where none are configured.
pub const IDLE_CHECK_DEFAULT_SECS: u64 = 60;

/// The longest interval between two idle checks, in seconds.
pub const IDLE_CHECK_MAXIMUM_SECS: u64 = 300;

/// The idle count at which a task quits where none is configured.
pub const IDLE_CHECK_DEFAULT_MAX_COUNT: usize = 5;

/// Why a task is told to quit whatever its legs are doing.
#[derive(Clone, Copy, Debug, PartialEq, Eq, Structural)]
pub enum IdleForceQuitReason {
    /// The user that the task works for has been blocked.
    UserBlocked,
    /// The server that the task belongs to is going away.
    ServerQuit,
}

/// The policy that decides when an idle task quits.
pub trait IdleCheck {
    /// Whether a task that has been idle for `idle_count` intervals in a
    /// row is to quit.
    fn check_quit(&self, idle_count: usize) -> bool;

    /// The reason, if the task is to quit regardless of its legs.
    fn check_force_quit(&self) -> Option<IdleForceQuitReason>;
}

/// The interval between two idle checks: the configured one, cut to the
/// maximum.
pub fn idle_check_interval_secs(configured: u64) -> (r: u64)
    ensures
        r == (if configured > IDLE_CHECK_MAXIMUM_SECS {
            IDLE_CHECK_MAXIMUM_SECS
        } else {
            configured
        }),
{
    if configured > IDLE_CHECK_MAXIMUM_SECS {
        IDLE_CHECK_MAXIMUM_SECS
    } else {
        configured
    }
}

/// The policy of quitting once the idle count reaches a maximum. It never
/// forces a task to quit.
#[derive(Clone, Copy, Debug)]
pub struct MaxIdleCount {
    pub max_idle_count: usize,
}

impl IdleCheck for MaxIdleCount {
    fn check_quit(&self, idle_count: usize) -> (r: bool)
        ensures
            r == (idle_count >= self.max_idle_count),
    {
        idle_count >= self.max_idle_count
    }

    fn check_force_quit(&self) -> (r: Option<IdleForceQuitReason>)
        ensures
            r is None,
    {
        None
    }
}

/// Which side made a leg idle.
#[derive(Clone, Copy, Debug, PartialEq, Eq, Structural)]
pub enum IdleBlame {
    /// The upstream leg is idle and holds nothing: upstream sends nothing.
    HttpUpstreamRead,
    /// The upstream leg is idle and holds unsent bytes: the adaptation
    /// server does not take them.
    IcapServerWrite,
    /// The client leg is idle and holds nothing: the adaptation server
    /// sends nothing.
    IcapServerRead,
    /// The client leg is idle and holds unsent bytes: the client does not
    /// take them.
    HttpClientWrite,
}

/// What one leg shows at a tick.
#[derive(Clone, Copy, Debug, PartialEq, Eq, Structural)]
pub struct LegStatus {
    /// Whether nothing moved on the leg during the interval.
    pub idle: bool,
    /// Whether the leg holds no byte that its sink has not accepted.
    pub no_cached_data: bool,
}

/// Who is to blame when a task quits for idleness: an idle upstream leg
/// goes first, and whether a leg holds unsent bytes tells which of its two
/// ends has stalled. `None` if neither leg is idle.
pub open spec fn idle_blame_of(upstream: LegStatus, client: LegStatus) -> Option<IdleBlame> {
    if upstream.idle {
        if upstream.no_cached_data {
            Some(IdleBlame::HttpUpstreamRead)
        } else {
            Some(IdleBlame::IcapServerWrite)
        }
    } else if client.idle {
        if client.no_cached_data {
            Some(IdleBlame::IcapServerRead)
        } else {
            Some(IdleBlame::HttpClientWrite)
        }
    } else {
        None
    }
}

/// Who is to blame when a task quits for idleness.
pub fn idle_blame(upstream: LegStatus, client: LegStatus) -> (r: Option<IdleBlame>)
    ensures
        r == idle_blame_of(upstream, client),
{
    if upstream.idle {
        if upstream.no_cached_data {
            Some(IdleBlame::HttpUpstreamRead)
        } else {
            Some(IdleBlame::IcapServerWrite)
        }
    } else if client.idle {
        if client.no_cached_data {
            Some(IdleBlame::IcapServerRead)
        } else {
            Some(IdleBlame::HttpClientWrite)
        }
    } else {
        None
    }
}

/// The idle count after a tick that covers `ticks` intervals: raised by
/// `ticks` and held at `usize::MAX` if every leg was idle, zero otherwise.
pub open spec fn idle_count_after(idle_count: usize, ticks: usize, all_idle: bool) -> usize {
    if !all_idle {
        0
    } else if idle_count + ticks > usize::MAX {
        usize::MAX
    } else {
        (idle_count + ticks) as usize
    }
}

/// The idle count after a tick that covers `ticks` intervals.
pub fn count_idle_tick(idle_count: usize, ticks: usize, all_idle: bool) -> (r: usize)
    ensures
        r == idle_count_after(idle_count, ticks, all_idle),
{
    if !all_idle {
        0
    } else if ticks > usize::MAX - idle_count {
        usize::MAX
    } else {
        idle_count + ticks
    }
}

/// What a tick leads to.
#[derive(Clone, Copy, Debug, PartialEq, Eq, Structural)]
pub enum IdleVerdict {
    /// The task goes on.
    Continue,
    /// The task quits for idleness, and this side is to blame.
    Idle(IdleBlame),
    /// The task quits because it was told to.
    ForceQuit(IdleForceQuitReason),
}

/// What a tick leads to, given what the policy answered. A forced quit
/// goes before everything else, whatever the legs are doing. Without one,
/// idleness is a reason to quit only at a tick that found every leg idle.
pub open spec fn idle_verdict_of(
    all_idle: bool,
    blame: Option<IdleBlame>,
    quit: bool,
    force: Option<IdleForceQuitReason>,
) -> IdleVerdict {
    match force {
        Some(reason) => IdleVerdict::ForceQuit(reason),
        None => if all_idle && quit && blame is Some {
            IdleVerdict::Idle(blame->Some_0)
        } else {
            IdleVerdict::Continue
        },
    }
}

/// What a tick leads to, given what the policy answered.
pub fn idle_verdict(
    all_idle: bool,
    blame: Option<IdleBlame>,
    quit: bool,
    force: Option<IdleForceQuitReason>,
) -> (r: IdleVerdict)
    ensures
        r == idle_verdict_of(all_idle, blame, quit, force),
{
    if let Some(reason) = force {
        return IdleVerdict::ForceQuit(reason);
    }
    if all_idle && quit {
        if let Some(b) = blame {
            return IdleVerdict::Idle(b);
        }
    }
    IdleVerdict::Continue
}

/// The blame in full: an idle upstream leg is blamed on upstream if it
/// holds nothing, and on the adaptation server not taking bytes if it holds
/// some; otherwise an idle client leg is blamed on the adaptation server
/// not giving bytes if it holds nothing, and on the client not taking
/// bytes if it holds some. With no idle leg nobody is blamed.
pub proof fn lemma_idle_blame_table(
    up_cache_empty: bool,
    client: LegStatus,
    client_cache_empty: bool,
)
    ensures
        idle_blame_of(LegStatus { idle: true, no_cached_data: true }, client) == Some(
            IdleBlame::HttpUpstreamRead,
        ),
        idle_blame_of(LegStatus { idle: true, no_cached_data: false }, client) == Some(
            IdleBlame::IcapServerWrite,
        ),
        idle_blame_of(
            LegStatus { idle: false, no_cached_data: up_cache_empty },
            LegStatus { idle: true, no_cached_data: true },
        ) == Some(IdleBlame::IcapServerRead),
        idle_blame_of(
            LegStatus { idle: false, no_cached_data: up_cache_empty },
            LegStatus { idle: true, no_cached_data: false },
        ) == Some(IdleBlame::HttpClientWrite),
        idle_blame_of(
            LegStatus { idle: false, no_cached_data: up_cache_empty },
            LegStatus { idle: false, no_cached_data: client_cache_empty },
        ) is None,
{
}

/// A task never quits for idleness at a tick that saw progress, and any
/// progress brings the idle count back to zero.
pub proof fn lemma_progress_resets(
    idle_count: usize,
    ticks: usize,
    blame: Option<IdleBlame>,
    quit: bool,
    force: Option<IdleForceQuitReason>,
)
    ensures
        !(idle_verdict_of(false, blame, quit, force) is Idle),
        idle_count_after(idle_count, ticks, false) == 0,
{
}

/// A forced quit cuts everything else short: whatever the legs are doing
/// and whatever the policy says of idleness, the task quits for the
/// reason given.
pub proof fn lemma_force_quit_goes_first(
    all_idle: bool,
    blame: Option<IdleBlame>,
    quit: bool,
    reason: IdleForceQuitReason,
)
    ensures
        idle_verdict_of(all_idle, blame, quit, Some(reason)) == IdleVerdict::ForceQuit(reason),
{
}

/// Accounts for a tick that covers `ticks` intervals and asks the policy
/// what follows. The policy is asked for a forced quit at every tick, and
/// first; if there is none, and every leg was idle, it is asked whether to
/// quit, with the idle count as it stands after the tick.
pub fn observe_tick<I: IdleCheck>(
    idle_checker: &I,
    idle_count: &mut usize,
    ticks: usize,
    all_idle: bool,
    blame: Option<IdleBlame>,
) -> (r: IdleVerdict)
    ensures
        *final(idle_count) == idle_count_after(*old(idle_count), ticks, all_idle),
        exists|quit: bool, force: Option<IdleForceQuitReason>|
            r == #[trigger] idle_verdict_of(all_idle, blame, quit, force),
        !all_idle || blame is None ==> !(r is Idle),
        r matches IdleVerdict::Idle(b) ==> blame == Some(b),
{
    *idle_count = count_idle_tick(*idle_count, ticks, all_idle);
    let force = idle_checker.check_force_quit();
    if let Some(reason) = force {
        assert(IdleVerdict::ForceQuit(reason) == idle_verdict_of(all_idle, blame, false, force));
        return IdleVerdict::ForceQuit(reason);
    }
    let quit: bool = if all_idle {
        idle_checker.check_quit(*idle_count)
    } else {
        false
    };
    let r = idle_verdict(all_idle, blame, quit, force);
    assert(r == idle_verdict_of(all_idle, blame, quit, force));
    r
}

} // verus!
