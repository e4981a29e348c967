//! The event loop's bookkeeping: which sources of readiness there are,
//! which timers are armed, and what each ready source leads to.

use vstd::prelude::*;
use vstd::string::*;
use crate::auth::AuthRequest;
use crate::seat::keys_effect;
use crate::state::NLockState;

verus! {

/// A source of readiness, as it is tagged in the multiplexer.
#[derive(Copy, Clone, Debug, PartialEq, Eq, Hash, Structural)]
pub enum EventType {
    /// The display connection has data to read.
    Wayland,
    /// The key repeat timer has expired.
    KeyboardRepeat,
    /// The worker, or a submission, has changed the state.
    StateChanged,
}

/// Why the event loop could not go on as usual.
#[derive(Copy, Clone, Debug, PartialEq, Eq, Structural)]
pub enum EventError {
    /// A ready source carries a tag that stands for no event type.
    InvalidEventType,
    /// The readiness multiplexer has not been created yet.
    NoEpoll,
    /// Waiting for readiness failed with this error code.
    Wait(i32),
}

/// What a ready source leads to.
#[derive(Copy, Clone, Debug, PartialEq, Eq, Structural)]
pub enum ReadyStep {
    /// Read from the display connection and dispatch, once every ready
    /// source has been looked at.
    ReadDisplay,
    /// Read the tick count of the repeat timer and hand it to
    /// [`NLockState::handle_timer_ticks`].
    ReadTimer,
    /// Drain the notification counter, then render if the state changed.
    DrainNotifier,
    /// Nothing: the timer that expired is no longer armed.
    Nothing,
}

/// When a timer fires, in milliseconds from when it is armed.
#[derive(Copy, Clone, Debug, PartialEq, Eq, Structural)]
pub enum Expiration {
    /// Once, after the given time.
    OneShot(u64),
    /// After `delay_ms` for the first time, then every `interval_ms`.
    IntervalDelayed { delay_ms: u64, interval_ms: u64 },
    /// Every so often, from now on.
    Interval(u64),
}

/// A timer that is armed.
#[derive(Copy, Clone, Debug, PartialEq, Eq, Structural)]
pub struct NLockTimer {
    /// The tag under which the timer is known to the multiplexer.
    pub id: u64,
    pub expiration: Expiration,
}

/// The test that lets every timer pass but those under the tag `id`.
pub open spec fn other_than(id: u64) -> spec_fn(NLockTimer) -> bool {
    |t: NLockTimer| t.id != id
}

/// Whether a timer is armed under the tag `id`.
pub open spec fn is_armed(timers: Seq<NLockTimer>, id: u64) -> bool {
    exists|i: int| 0 <= i < timers.len() && (#[trigger] timers[i]).id == id
}

/// What becomes of the read guard on the display connection when every
/// ready source has been looked at.
#[derive(Copy, Clone, Debug, PartialEq, Eq, Structural)]
pub enum GuardStep {
    /// Read from the connection, then dispatch what has come.
    ReadAndDispatch,
    /// Drop the guard: the connection had nothing to read.
    Release,
}

/// What is to be set up at the start of a cycle.
#[derive(Copy, Clone, Debug, PartialEq, Eq, Structural)]
pub struct CycleStart {
    /// Create the readiness multiplexer.
    pub create_epoll: bool,
    /// Register the notifier with the multiplexer, to stay.
    pub register_notifier: bool,
}

/// What the look at the ready sources of one cycle has found.
#[derive(Copy, Clone, Debug, PartialEq, Eq, Structural)]
pub struct CycleScan {
    /// Whether the display connection is among the ready sources.
    pub display_ready: bool,
}

/// The error code of an interrupted system call.
pub const EINTR: i32 = 4;

impl EventType {
    /// The tag of the event type.
    pub open spec fn tag(self) -> u64 {
        match self {
            EventType::Wayland => 0,
            EventType::KeyboardRepeat => 1,
            EventType::StateChanged => 2,
        }
    }

    /// The event type of a tag.
    pub open spec fn of_tag(value: u64) -> Option<EventType> {
        if value == 0 {
            Some(EventType::Wayland)
        } else if value == 1 {
            Some(EventType::KeyboardRepeat)
        } else if value == 2 {
            Some(EventType::StateChanged)
        } else {
            None
        }
    }

    /// The event type that a tag stands for.
    pub fn from_u64(value: u64) -> (r: Result<EventType, EventError>)
        ensures
            r == (match EventType::of_tag(value) {
                Some(t) => Ok(t),
                None => Err(EventError::InvalidEventType),
            }),
    {
        if value == 0 {
            Ok(EventType::Wayland)
        } else if value == 1 {
            Ok(EventType::KeyboardRepeat)
        } else if value == 2 {
            Ok(EventType::StateChanged)
        } else {
            Err(EventError::InvalidEventType)
        }
    }

    /// The tag under which the event type is registered.
    pub fn to_u64(self) -> (r: u64)
        ensures
            r == self.tag(),
    {
        match self {
            EventType::Wayland => 0,
            EventType::KeyboardRepeat => 1,
            EventType::StateChanged => 2,
        }
    }
}

/// Every event type is found again by its tag.
pub proof fn lemma_event_tag_round_trip(t: EventType)
    ensures
        EventType::of_tag(t.tag()) == Some(t),
{
}

/// Tells whether an error of the operating system is an interrupted call.
pub fn is_eintr(raw_os_error: Option<i32>) -> (r: bool)
    ensures
        r == (raw_os_error == Some(EINTR)),
{
    match raw_os_error {
        Some(code) => code == EINTR,
        None => false,
    }
}

/// The number of sources to look at after a wait. An interrupted wait is
/// no error: it is a wait that found nothing ready.
pub fn events_ready(waited: Result<usize, i32>) -> (r: Result<usize, EventError>)
    ensures
        r == (match waited {
            Ok(n) => Ok(n),
            Err(code) => if code == EINTR {
                Ok(0usize)
            } else {
                Err(EventError::Wait(code))
            },
        }),
{
    match waited {
        Ok(n) => Ok(n),
        Err(code) => {
            if is_eintr(Some(code)) {
                Ok(0)
            } else {
                Err(EventError::Wait(code))
            }
        },
    }
}

impl CycleScan {
    /// The scan of a cycle in which nothing has been looked at yet.
    pub fn new() -> (r: CycleScan)
        ensures
            !r.display_ready,
    {
        CycleScan { display_ready: false }
    }

    /// Takes note of the step that a ready source led to.
    pub fn record(&mut self, step: ReadyStep)
        ensures
            final(self).display_ready == (old(self).display_ready || step == ReadyStep::ReadDisplay),
    {
        match step {
            ReadyStep::ReadDisplay => {
                self.display_ready = true;
            },
            _ => {},
        }
    }

    /// Says what becomes of the read guard: it is read from only if the
    /// display connection was ready, and dropped if not.
    pub fn conclude(self) -> (r: GuardStep)
        ensures
            r == (if self.display_ready {
                GuardStep::ReadAndDispatch
            } else {
                GuardStep::Release
            }),
    {
        if self.display_ready {
            GuardStep::ReadAndDispatch
        } else {
            GuardStep::Release
        }
    }
}

impl NLockState {
    /// Whether `self` is `old` but for the timers.
    pub open spec fn same_but_timers(self, old: NLockState) -> bool {
        &&& self.config == old.config
        &&& self.running == old.running
        &&& self.locked == old.locked
        &&& self.unlocked == old.unlocked
        &&& self.state_changed == old.state_changed
        &&& self.registry == old.registry
        &&& self.globals == old.globals
        &&& self.session_lock == old.session_lock
        &&& self.surfaces == old.surfaces
        &&& self.seat == old.seat
        &&& self.xkb == old.xkb
        &&& self.password == old.password
        &&& self.epoll == old.epoll
        &&& self.notifier_registered == old.notifier_registered
        &&& self.auth_state == old.auth_state
        &&& self.auth_pending == old.auth_pending
    }

    /// Begins a cycle of the event loop. Says what is to be set up first:
    /// the readiness multiplexer if there is none yet, and the notifier's
    /// place in it if it has none. Both are there from then on.
    pub fn begin_cycle(&mut self) -> (r: CycleStart)
        ensures
            old(self).wf() ==> final(self).wf(),
            r == (CycleStart {
                create_epoll: !old(self).epoll,
                register_notifier: !old(self).epoll || !old(self).notifier_registered,
            }),
            *final(self) == (NLockState { epoll: true, notifier_registered: true, ..*old(self) }),
    {
        let start: CycleStart = CycleStart {
            create_epoll: !self.epoll,
            register_notifier: !self.epoll || !self.notifier_registered,
        };
        self.epoll = true;
        self.notifier_registered = true;
        start
    }

    /// Arms a timer under the given tag.
    pub fn set_timer(&mut self, id: u64, expiration: Expiration) -> (r: Result<(), EventError>)
        ensures
            old(self).wf() ==> final(self).wf(),
            r == (if old(self).epoll {
                Ok(())
            } else {
                Err(EventError::NoEpoll)
            }),
            r is Ok ==> final(self).timers@ == old(self).timers@.push(NLockTimer { id, expiration }),
            r is Err ==> final(self).timers == old(self).timers,
            final(self).same_but_timers(*old(self)),
    {
        if !self.epoll {
            return Err(EventError::NoEpoll);
        }
        self.timers.push(NLockTimer { id, expiration });
        Ok(())
    }

    /// Disarms every timer under the given tag and gives their number.
    /// The other timers stay, in their order.
    pub fn unset_timer(&mut self, id: u64) -> (r: Result<usize, EventError>)
        ensures
            old(self).wf() ==> final(self).wf(),
            r is Ok <==> old(self).epoll,
            r is Err ==> r == Err::<usize, EventError>(EventError::NoEpoll) && final(self).timers
                == old(self).timers,
            r is Ok ==> {
                &&& final(self).timers@ == old(self).timers@.filter(other_than(id))
                &&& r.unwrap() == old(self).timers@.len() - final(self).timers@.len()
                &&& !is_armed(final(self).timers@, id)
            },
            final(self).same_but_timers(*old(self)),
    {
        if !self.epoll {
            return Err(EventError::NoEpoll);
        }
        let mut kept: Vec<NLockTimer> = Vec::new();
        let mut i: usize = 0;
        while i < self.timers.len()
            invariant
                i <= self.timers@.len(),
                self.timers == old(self).timers,
                kept@ == self.timers@.subrange(0, i as int).filter(other_than(id)),
                kept@.len() <= i,
                self.same_but_timers(*old(self)),
            decreases self.timers@.len() - i,
        {
            let t: NLockTimer = self.timers[i];
            proof {
                let head = self.timers@.subrange(0, i as int);
                let next = self.timers@.subrange(0, i + 1);
                assert(next =~= head.push(t));
                lemma_filter_push(head, t, id);
            }
            if t.id != id {
                kept.push(t);
            }
            i += 1;
        }
        proof {
            assert(self.timers@.subrange(0, i as int) =~= self.timers@);
            lemma_filter_drops(old(self).timers@, id);
        }
        let removed: usize = self.timers.len() - kept.len();
        self.timers = kept;
        Ok(removed)
    }

    /// Says what a ready source leads to. A tag that stands for no event
    /// type is an error. An expired repeat timer is read only while a
    /// timer is armed under its tag.
    pub fn dispatch_ready(&self, tag: u64) -> (r: Result<ReadyStep, EventError>)
        ensures
            r == (match EventType::of_tag(tag) {
                None => Err(EventError::InvalidEventType),
                Some(EventType::Wayland) => Ok(ReadyStep::ReadDisplay),
                Some(EventType::KeyboardRepeat) => Ok(
                    if is_armed(self.timers@, EventType::KeyboardRepeat.tag()) {
                        ReadyStep::ReadTimer
                    } else {
                        ReadyStep::Nothing
                    },
                ),
                Some(EventType::StateChanged) => Ok(ReadyStep::DrainNotifier),
            }),
    {
        match EventType::from_u64(tag) {
            Err(e) => Err(e),
            Ok(EventType::Wayland) => Ok(ReadyStep::ReadDisplay),
            Ok(EventType::StateChanged) => Ok(ReadyStep::DrainNotifier),
            Ok(EventType::KeyboardRepeat) => {
                let mut i: usize = 0;
                while i < self.timers.len()
                    invariant
                        i <= self.timers@.len(),
                        EventType::of_tag(tag) == Some(EventType::KeyboardRepeat),
                        forall|j: int| 0 <= j < i ==> self.timers@[j].id != 1,
                    decreases self.timers@.len() - i,
                {
                    if self.timers[i].id == 1 {
                        return Ok(ReadyStep::ReadTimer);
                    }
                    i += 1;
                }
                Ok(ReadyStep::Nothing)
            },
        }
    }

    /// Replays the repeating key once for every tick that the repeat
    /// timer has counted, so that none is lost where the loop woke late.
    /// A read of other than the eight bytes of the counter replays
    /// nothing. Gives the request to hand to the worker, if a replay
    /// submitted the password; later replays submit nothing more.
    pub fn handle_timer_ticks(&mut self, bytes_read: usize, ticks: u64) -> (r: Option<AuthRequest>)
        ensures
            old(self).wf() ==> final(self).wf(),
            final(self).same_but_keys(*old(self)),
            final(self).seat == old(self).seat,
            final(self).timers == old(self).timers,
            bytes_read != 8 || old(self).seat.repeat_keysym is None || old(
                self,
            ).seat.repeat_codepoint is None ==> r is None && *final(self) == *old(self),
            bytes_read == 8 && old(self).seat.repeat_keysym is Some && old(
                self,
            ).seat.repeat_codepoint is Some ==> {
                let effect = keys_effect(
                    old(self).entry(),
                    old(self).seat.repeat_keysym.unwrap(),
                    old(self).seat.repeat_codepoint.unwrap(),
                    ticks as nat,
                );
                &&& final(self).entry() == effect.0
                &&& match r {
                    Some(AuthRequest::Password(p)) => effect.1 == Some(p@),
                    Some(AuthRequest::Exit) => false,
                    None => effect.1 is None,
                }
                &&& final(self).state_changed == (old(self).state_changed || ticks > 0)
            },
    {
        let mut request: Option<AuthRequest> = None;
        if bytes_read != 8 {
            return request;
        }
        let (keysym, codepoint): (u32, u32) = match (
            self.seat.repeat_keysym,
            self.seat.repeat_codepoint,
        ) {
            (Some(k), Some(c)) => (k, c),
            _ => {
                return request;
            },
        };
        let mut i: u64 = 0;
        while i < ticks
            invariant
                i <= ticks,
                self.same_but_keys(*old(self)),
                self.seat == old(self).seat,
                self.timers == old(self).timers,
                self.seat.repeat_keysym == Some(keysym),
                self.seat.repeat_codepoint == Some(codepoint),
                self.entry() == keys_effect(old(self).entry(), keysym, codepoint, i as nat).0,
                match request {
                    Some(AuthRequest::Password(p)) => keys_effect(
                        old(self).entry(),
                        keysym,
                        codepoint,
                        i as nat,
                    ).1 == Some(p@),
                    Some(AuthRequest::Exit) => false,
                    None => keys_effect(old(self).entry(), keysym, codepoint, i as nat).1 is None,
                },
                request is Some ==> self.auth_pending,
                old(self).wf() ==> self.wf(),
                self.state_changed == (old(self).state_changed || i > 0),
            decreases ticks - i,
        {
            let next: Option<AuthRequest> = self.handle_repeat_event();
            if request.is_none() {
                request = next;
            }
            i += 1;
        }
        request
    }
}

/// The number of timers that are armed under the tag `id`.
pub open spec fn armed_count(timers: Seq<NLockTimer>, id: u64) -> nat
    decreases timers.len(),
{
    if timers.len() == 0 {
        0
    } else {
        armed_count(timers.drop_last(), id) + if timers.last().id == id {
            1nat
        } else {
            0nat
        }
    }
}

/// One more timer counts under its own tag and under no other.
pub proof fn lemma_count_push(s: Seq<NLockTimer>, t: NLockTimer, id: u64)
    ensures
        armed_count(s.push(t), id) == armed_count(s, id) + if t.id == id {
            1nat
        } else {
            0nat
        },
{
    assert(s.push(t).drop_last() =~= s);
}

/// After the timers under a tag are disarmed, none is armed under it.
pub proof fn lemma_count_after_unset(s: Seq<NLockTimer>, id: u64)
    ensures
        armed_count(s.filter(other_than(id)), id) == 0,
    decreases s.len(),
{
    if s.len() == 0 {
        reveal(Seq::filter);
    } else {
        let head = s.drop_last();
        let t = s.last();
        assert(head.push(t) =~= s);
        lemma_filter_push(head, t, id);
        lemma_count_after_unset(head, id);
        if t.id != id {
            lemma_count_push(head.filter(other_than(id)), t, id);
        }
    }
}

/// Filtering a list with one more element at its end.
proof fn lemma_filter_push(s: Seq<NLockTimer>, t: NLockTimer, id: u64)
    ensures
        s.push(t).filter(other_than(id)) == (if t.id != id {
            s.filter(other_than(id)).push(t)
        } else {
            s.filter(other_than(id))
        }),
{
    assert(s.push(t).drop_last() =~= s);
    reveal(Seq::filter);
}

/// What is filtered out of a list is not in it any more.
proof fn lemma_filter_drops(s: Seq<NLockTimer>, id: u64)
    ensures
        !is_armed(s.filter(other_than(id)), id),
        s.filter(other_than(id)).len() <= s.len(),
{
    let keep = other_than(id);
    s.lemma_filter_len(keep);
    if is_armed(s.filter(keep), id) {
        let i = choose|i: int| 0 <= i < s.filter(keep).len() && (#[trigger] s.filter(keep)[i]).id == id;
        s.lemma_filter_pred(keep, i);
    }
}

impl EventError {
    /// The error in words.
    pub fn message(self) -> (r: String)
        ensures
            r@ == (match self {
                EventError::InvalidEventType => "invalid event type value"@,
                EventError::NoEpoll => "epoll has not been created yet"@,
                EventError::Wait(_) => "error during epoll"@,
            }),
    {
        match self {
            EventError::InvalidEventType => String::from_str("invalid event type value"),
            EventError::NoEpoll => String::from_str("epoll has not been created yet"),
            EventError::Wait(_) => String::from_str("error during epoll"),
        }
    }
}

} // verus!
