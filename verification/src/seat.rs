//! The keyboard: what the seat offers, the key that repeats, and what a key
//! does to the password.

use vstd::prelude::*;
use vstd::string::*;
use crate::auth::{AuthRequest, AuthState};
use crate::event::{
    armed_count,
    lemma_count_after_unset,
    lemma_count_push,
    other_than,
    EventError,
    EventType,
    Expiration,
    NLockTimer,
};
use crate::state::{submitted, Entry, NLockState};

verus! {

/// The key that submits the password, on the main block.
pub const KEY_RETURN: u32 = 0xff0d;

/// The key that submits the password, on the keypad.
pub const KEY_KP_ENTER: u32 = 0xff8d;

/// The key that erases the last character.
pub const KEY_BACKSPACE: u32 = 0xff08;

/// The other key that erases the last character.
pub const KEY_DELETE: u32 = 0xffff;

/// What is known of the keyboard's layout.
#[derive(Copy, Clone, Debug, PartialEq, Eq, Structural)]
pub struct NLockXkb {
    /// Whether a keymap has been compiled.
    pub keymap: bool,
    /// Whether there is a keyboard state to look keys up in.
    pub state: bool,
}

/// The input devices of the seat and the repeating key.
#[derive(Copy, Clone, Debug, PartialEq, Eq, Structural)]
pub struct NLockSeat {
    pub pointer: bool,
    pub keyboard: bool,
    /// The interval between two repeats in milliseconds; none if not positive.
    pub repeat_rate: i32,
    /// The time before the first repeat in milliseconds.
    pub repeat_delay: i32,
    pub repeat_keysym: Option<u32>,
    pub repeat_codepoint: Option<u32>,
    pub repeat_timer_set: bool,
}

/// Why a keyboard event could not be handled.
#[derive(Copy, Clone, Debug, PartialEq, Eq, Structural)]
pub enum SeatError {
    /// No keymap could be made of what the compositor sent.
    NoKeymap,
    /// There is no keyboard state yet.
    NoXkbState,
}

/// What is to be done after a key event.
pub struct KeyPlan {
    /// The request to hand to the worker, if the key submitted the password.
    pub request: Option<AuthRequest>,
    /// Whether the repeat timers are to be closed.
    pub disarm: bool,
    /// The repeat timer to arm, if any.
    pub arm: Option<Expiration>,
    /// What went wrong with the timers, if anything. The key has had its
    /// effect all the same.
    pub error: Option<EventError>,
}

/// What is to be done about the seat's devices after it has named them.
#[derive(Copy, Clone, Debug, PartialEq, Eq, Structural)]
pub struct CapabilityPlan {
    /// Release the keyboard that is held, before getting the new one.
    pub release_keyboard: bool,
    pub get_keyboard: bool,
    /// Release the pointer that is held, before getting the new one.
    pub release_pointer: bool,
    pub get_pointer: bool,
}

/// Whether a code point is a Unicode scalar value, that is, a character.
pub open spec fn is_scalar_value(cp: u32) -> bool {
    cp <= 0xD7FF || 0xE000 <= cp <= 0x10FFFF
}

/// Whether a code point is a control code: `U+0000` to `U+001F` and
/// `U+007F` to `U+009F`.
pub open spec fn is_control_code(cp: u32) -> bool {
    cp <= 0x1F || 0x7F <= cp <= 0x9F
}

/// Whether a key's code point is typed into the password.
pub open spec fn is_typed(cp: u32) -> bool {
    is_scalar_value(cp) && !is_control_code(cp)
}

/// Whether a key submits the password.
pub open spec fn is_submit_key(keysym: u32) -> bool {
    keysym == KEY_KP_ENTER || keysym == KEY_RETURN
}

/// Whether a key erases the last character.
pub open spec fn is_erase_key(keysym: u32) -> bool {
    keysym == KEY_BACKSPACE || keysym == KEY_DELETE
}

/// What a key does to the password entry, and the password that it
/// submits, if it does.
pub open spec fn key_effect(e: Entry, keysym: u32, cp: u32) -> (Entry, Option<Seq<char>>) {
    if is_submit_key(keysym) {
        submitted(e)
    } else if is_erase_key(keysym) {
        (
            Entry {
                password: if e.password.len() > 0 {
                    e.password.drop_last()
                } else {
                    e.password
                },
                ..e
            },
            None,
        )
    } else if is_typed(cp) {
        (Entry { password: e.password.push(cp as char), ..e }, None)
    } else {
        (e, None)
    }
}

/// What a key pressed `n` times in a row does to the password entry, and
/// the first password that it submits, if it submits one.
pub open spec fn keys_effect(e: Entry, keysym: u32, cp: u32, n: nat) -> (Entry, Option<Seq<char>>)
    decreases n,
{
    if n == 0 {
        (e, None)
    } else {
        let (before, first) = keys_effect(e, keysym, cp, (n - 1) as nat);
        let (after, last) = key_effect(before, keysym, cp);
        (
            after,
            if first is Some {
                first
            } else {
                last
            },
        )
    }
}

/// The number of milliseconds that a signed number stands for: itself,
/// or none at all if it is negative.
pub open spec fn millis_of(v: i32) -> int {
    if v >= 0 {
        v as int
    } else {
        0
    }
}

/// What a key event can change: the password entry, the flag that asks
/// for a render, the seat and the timers; and the multiplexer, on which
/// the timers depend.
pub struct KeyWorld {
    pub entry: Entry,
    pub state_changed: bool,
    pub seat: NLockSeat,
    pub timers: Seq<NLockTimer>,
    pub epoll: bool,
}

/// What is to be done after a key event, with the password that the key
/// submitted in place of the request.
pub struct KeyOutcome {
    pub submitted: Option<Seq<char>>,
    pub disarm: bool,
    pub arm: Option<Expiration>,
    pub error: Option<EventError>,
}

/// A key goes down: it is applied to the password, and the overlays are
/// out of date.
pub open spec fn pressed_world(w: KeyWorld, keysym: u32, cp: u32) -> (KeyWorld, Option<Seq<char>>) {
    (
        KeyWorld { entry: key_effect(w.entry, keysym, cp).0, state_changed: true, ..w },
        key_effect(w.entry, keysym, cp).1,
    )
}

/// The repeat is stopped: every timer under its tag is disarmed. Without
/// a repeat nothing happens, and without a multiplexer a repeat cannot be
/// stopped.
pub open spec fn stopped_world(w: KeyWorld) -> Result<(KeyWorld, bool), EventError> {
    if !w.seat.repeat_timer_set {
        Ok((w, false))
    } else if !w.epoll {
        Err(EventError::NoEpoll)
    } else {
        Ok(
            (
                KeyWorld {
                    seat: NLockSeat { repeat_timer_set: false, ..w.seat },
                    timers: w.timers.filter(other_than(EventType::KeyboardRepeat.tag())),
                    ..w
                },
                true,
            ),
        )
    }
}

/// A key becomes the repeating key, and the repeat timer is armed if
/// there is a multiplexer to hold it.
pub open spec fn started_world(w: KeyWorld, keysym: u32, cp: u32) -> (
    KeyWorld,
    Result<Expiration, EventError>,
) {
    let seat = NLockSeat { repeat_keysym: Some(keysym), repeat_codepoint: Some(cp), ..w.seat };
    if w.epoll {
        (
            KeyWorld {
                seat: NLockSeat { repeat_timer_set: true, ..seat },
                timers: w.timers.push(
                    NLockTimer {
                        id: EventType::KeyboardRepeat.tag(),
                        expiration: repeat_expiration(w.seat),
                    },
                ),
                ..w
            },
            Ok(repeat_expiration(w.seat)),
        )
    } else {
        (KeyWorld { seat, ..w }, Err(EventError::NoEpoll))
    }
}

/// What a key event does, step by step. A key that goes down is applied
/// to the password. Then the repeat is stopped, whatever the key did; if
/// that fails the rest is left. Then a key that went down becomes the
/// repeating key, if the compositor has given a positive repeat rate.
pub open spec fn key_event_world(w: KeyWorld, pressed: bool, keysym: u32, cp: u32) -> (
    KeyWorld,
    KeyOutcome,
) {
    let (w1, submitted) = if pressed {
        pressed_world(w, keysym, cp)
    } else {
        (w, None)
    };
    match stopped_world(w1) {
        Err(e) => (w1, KeyOutcome { submitted, disarm: false, arm: None, error: Some(e) }),
        Ok((w2, disarm)) => if pressed && w2.seat.repeat_rate > 0 {
            let (w3, armed) = started_world(w2, keysym, cp);
            match armed {
                Ok(expiration) => (
                    w3,
                    KeyOutcome { submitted, disarm, arm: Some(expiration), error: None },
                ),
                Err(e) => (w3, KeyOutcome { submitted, disarm, arm: None, error: Some(e) }),
            }
        } else {
            (w2, KeyOutcome { submitted, disarm, arm: None, error: None })
        },
    }
}

/// When the repeat timer fires: first after the repeat delay, then at
/// every repeat interval.
pub open spec fn repeat_expiration(seat: NLockSeat) -> Expiration {
    Expiration::IntervalDelayed {
        delay_ms: millis_of(seat.repeat_delay) as u64,
        interval_ms: millis_of(seat.repeat_rate) as u64,
    }
}

/// The key code under which the keyboard state knows the key with the
/// given number: eight more. There is none where that does not fit.
pub fn keycode_of(key: u32) -> (r: Option<u32>)
    ensures
        r == (if key <= u32::MAX - 8 {
            Some((key + 8) as u32)
        } else {
            None
        }),
{
    key.checked_add(8)
}

/// Converts a code point to the character it stands for, by
/// `char::from_u32`. Trusted: that there is a character exactly for the
/// scalar values, and that it has the code point given.
#[verifier::external_body]
fn char_from_u32(cp: u32) -> (r: Option<char>)
    ensures
        r == (if is_scalar_value(cp) {
            Some(cp as char)
        } else {
            None
        }),
{
    char::from_u32(cp)
}

/// Appends a character to a text, by `String::push`. Trusted: that the
/// text is then the old one with the character at its end.
#[verifier::external_body]
fn push_char(text: &mut String, c: char)
    ensures
        final(text)@ == old(text)@.push(c),
{
    text.push(c)
}

/// Removes the last character of a text, by `String::pop`. Trusted: that
/// it is gone, and that an empty text stays as it is.
#[verifier::external_body]
fn pop_char(text: &mut String) -> (r: Option<char>)
    ensures
        old(text)@.len() == 0 ==> r is None && final(text)@ == old(text)@,
        old(text)@.len() > 0 ==> r == Some(old(text)@.last()) && final(text)@ == old(
            text,
        )@.drop_last(),
{
    text.pop()
}

/// Tells whether a code point is a control code.
pub fn is_control(cp: u32) -> (r: bool)
    ensures
        r == is_control_code(cp),
{
    cp <= 0x1F || (0x7F <= cp && cp <= 0x9F)
}

/// The number of milliseconds that a signed number stands for.
fn millis(v: i32) -> (r: u64)
    ensures
        r == millis_of(v),
{
    if v >= 0 {
        v as u64
    } else {
        0
    }
}

impl NLockXkb {
    /// No keymap yet.
    pub fn new() -> (r: NLockXkb)
        ensures
            r == (NLockXkb { keymap: false, state: false }),
    {
        NLockXkb { keymap: false, state: false }
    }
}

impl Default for NLockXkb {
    fn default() -> (r: Self)
        ensures
            r == (NLockXkb { keymap: false, state: false }),
    {
        NLockXkb::new()
    }
}

impl NLockSeat {
    /// Whether the seat is as [`NLockSeat::new`] makes it.
    pub open spec fn is_new(self) -> bool {
        self == (NLockSeat {
            pointer: false,
            keyboard: false,
            repeat_rate: 0,
            repeat_delay: 0,
            repeat_keysym: None,
            repeat_codepoint: None,
            repeat_timer_set: false,
        })
    }

    /// A seat without devices, with no key repeating.
    pub fn new() -> (r: NLockSeat)
        ensures
            r.is_new(),
    {
        NLockSeat {
            pointer: false,
            keyboard: false,
            repeat_rate: 0,
            repeat_delay: 0,
            repeat_keysym: None,
            repeat_codepoint: None,
            repeat_timer_set: false,
        }
    }
}

impl Default for NLockSeat {
    fn default() -> (r: Self)
        ensures
            r.is_new(),
    {
        NLockSeat::new()
    }
}

impl NLockState {
    /// Whether `self` differs from `old` at most in the password entry,
    /// the seat, the timers and the flag that asks for a render.
    pub open spec fn same_but_keys(self, old: NLockState) -> bool {
        &&& self.config == old.config
        &&& self.running == old.running
        &&& self.locked == old.locked
        &&& self.unlocked == old.unlocked
        &&& self.registry == old.registry
        &&& self.globals == old.globals
        &&& self.session_lock == old.session_lock
        &&& self.surfaces == old.surfaces
        &&& self.xkb == old.xkb
        &&& self.epoll == old.epoll
        &&& self.notifier_registered == old.notifier_registered
    }

    /// The part of the state that a key event can change.
    pub open spec fn key_world(self) -> KeyWorld {
        KeyWorld {
            entry: self.entry(),
            state_changed: self.state_changed,
            seat: self.seat,
            timers: self.timers@,
            epoll: self.epoll,
        }
    }

    /// The compositor has sent a keymap. Where one could be compiled from
    /// it, there is a keyboard state from now on.
    pub fn handle_keymap_event(&mut self, compiled: bool) -> (r: Result<(), SeatError>)
        ensures
            old(self).wf() ==> final(self).wf(),
            r == (if compiled {
                Ok(())
            } else {
                Err(SeatError::NoKeymap)
            }),
            *final(self) == (if compiled {
                NLockState { xkb: NLockXkb { keymap: true, state: true }, ..*old(self) }
            } else {
                *old(self)
            }),
    {
        if !compiled {
            return Err(SeatError::NoKeymap);
        }
        self.xkb.state = true;
        self.xkb.keymap = true;
        Ok(())
    }

    /// Applies a key to the password: the return keys submit it, the
    /// erase keys remove its last character, and any other key types its
    /// character unless that is a control code. In each case the overlays
    /// are out of date afterwards. Gives the request to hand to the
    /// worker, if the password was submitted.
    pub fn process_key(&mut self, keysym: u32, codepoint: u32) -> (r: Option<AuthRequest>)
        ensures
            old(self).wf() ==> final(self).wf(),
            final(self).entry() == key_effect(old(self).entry(), keysym, codepoint).0,
            match r {
                Some(AuthRequest::Password(p)) => key_effect(
                    old(self).entry(),
                    keysym,
                    codepoint,
                ).1 == Some(p@),
                Some(AuthRequest::Exit) => false,
                None => key_effect(old(self).entry(), keysym, codepoint).1 is None,
            },
            final(self).state_changed,
            final(self).same_but_keys(*old(self)),
            final(self).seat == old(self).seat,
            final(self).timers == old(self).timers,
    {
        let mut request: Option<AuthRequest> = None;
        if keysym == KEY_KP_ENTER || keysym == KEY_RETURN {
            request = self.submit_password();
        } else if keysym == KEY_BACKSPACE || keysym == KEY_DELETE {
            let _ = pop_char(&mut self.password);
        } else {
            match char_from_u32(codepoint) {
                Some(ch) => {
                    if !is_control(codepoint) {
                        push_char(&mut self.password, ch);
                    }
                },
                None => {},
            }
        }
        self.state_changed = true;
        request
    }

    /// Whether `self` is `old` but for the seat and the timers.
    pub open spec fn same_but_repeat(self, old: NLockState) -> bool {
        &&& self.same_but_keys(old)
        &&& self.password == old.password
        &&& self.auth_state == old.auth_state
        &&& self.auth_pending == old.auth_pending
        &&& self.state_changed == old.state_changed
    }

    /// Stops the repeating key: its timers are disarmed. Tells whether
    /// there was a repeat to stop.
    fn stop_repeat(&mut self) -> (r: Result<bool, EventError>)
        ensures
            old(self).wf() ==> final(self).wf(),
            match stopped_world(old(self).key_world()) {
                Ok((w, stopped)) => r == Ok::<bool, EventError>(stopped) && final(self).key_world()
                    == w,
                Err(e) => r == Err::<bool, EventError>(e) && *final(self) == *old(self),
            },
            final(self).same_but_repeat(*old(self)),
    {
        if self.seat.repeat_timer_set {
            match self.unset_timer(EventType::KeyboardRepeat.to_u64()) {
                Ok(_) => {
                    self.seat.repeat_timer_set = false;
                    Ok(true)
                },
                Err(e) => Err(e),
            }
        } else {
            Ok(false)
        }
    }

    /// Makes a key the repeating key and arms the repeat timer.
    fn start_repeat(&mut self, keysym: u32, codepoint: u32) -> (r: Result<Expiration, EventError>)
        ensures
            old(self).wf() ==> final(self).wf(),
            final(self).key_world() == started_world(old(self).key_world(), keysym, codepoint).0,
            r == started_world(old(self).key_world(), keysym, codepoint).1,
            final(self).same_but_repeat(*old(self)),
    {
        self.seat.repeat_keysym = Some(keysym);
        self.seat.repeat_codepoint = Some(codepoint);
        let expiration: Expiration = Expiration::IntervalDelayed {
            delay_ms: millis(self.seat.repeat_delay),
            interval_ms: millis(self.seat.repeat_rate),
        };
        match self.set_timer(EventType::KeyboardRepeat.to_u64(), expiration) {
            Ok(()) => {
                self.seat.repeat_timer_set = true;
                Ok(expiration)
            },
            Err(e) => Err(e),
        }
    }

    /// Handles a key going down or up, see [`key_event_world`]. Without
    /// a keyboard state nothing happens.
    pub fn handle_key_event(&mut self, pressed: bool, keysym: u32, codepoint: u32) -> (r: Result<
        KeyPlan,
        SeatError,
    >)
        ensures
            old(self).wf() ==> final(self).wf(),
            r is Err <==> !old(self).xkb.state,
            r is Err ==> r == Err::<KeyPlan, SeatError>(SeatError::NoXkbState) && *final(self)
                == *old(self),
            final(self).same_but_keys(*old(self)),
            r is Ok ==> {
                let plan = r.unwrap();
                let (world, outcome) = key_event_world(
                    old(self).key_world(),
                    pressed,
                    keysym,
                    codepoint,
                );
                &&& final(self).key_world() == world
                &&& match plan.request {
                    Some(AuthRequest::Password(p)) => outcome.submitted == Some(p@),
                    Some(AuthRequest::Exit) => false,
                    None => outcome.submitted is None,
                }
                &&& plan.disarm == outcome.disarm
                &&& plan.arm == outcome.arm
                &&& plan.error == outcome.error
            },
    {
        if !self.xkb.state {
            return Err(SeatError::NoXkbState);
        }
        let request: Option<AuthRequest> = if pressed {
            self.process_key(keysym, codepoint)
        } else {
            None
        };
        let disarm: bool = match self.stop_repeat() {
            Ok(stopped) => stopped,
            Err(e) => {
                return Ok(KeyPlan { request, disarm: false, arm: None, error: Some(e) });
            },
        };
        if !(pressed && self.seat.repeat_rate > 0) {
            return Ok(KeyPlan { request, disarm, arm: None, error: None });
        }
        match self.start_repeat(keysym, codepoint) {
            Ok(expiration) => Ok(KeyPlan { request, disarm, arm: Some(expiration), error: None }),
            Err(e) => Ok(KeyPlan { request, disarm, arm: None, error: Some(e) }),
        }
    }

    /// Applies the repeating key once more, if there is one.
    pub fn handle_repeat_event(&mut self) -> (r: Option<AuthRequest>)
        ensures
            old(self).wf() ==> final(self).wf(),
            old(self).seat.repeat_keysym is Some && old(self).seat.repeat_codepoint is Some ==> {
                let effect = key_effect(
                    old(self).entry(),
                    old(self).seat.repeat_keysym.unwrap(),
                    old(self).seat.repeat_codepoint.unwrap(),
                );
                &&& final(self).entry() == effect.0
                &&& match r {
                    Some(AuthRequest::Password(p)) => effect.1 == Some(p@),
                    Some(AuthRequest::Exit) => false,
                    None => effect.1 is None,
                }
                &&& final(self).state_changed
            },
            old(self).seat.repeat_keysym is None || old(self).seat.repeat_codepoint is None ==> r is None
                && *final(self) == *old(self),
            final(self).same_but_keys(*old(self)),
            final(self).seat == old(self).seat,
            final(self).timers == old(self).timers,
    {
        match (self.seat.repeat_keysym, self.seat.repeat_codepoint) {
            (Some(keysym), Some(codepoint)) => self.process_key(keysym, codepoint),
            _ => None,
        }
    }

    /// Tells whether a change of the modifiers can be taken: it can once
    /// there is a keyboard state.
    pub fn handle_modifiers_event(&self) -> (r: Result<(), SeatError>)
        ensures
            r == (if self.xkb.state {
                Ok(())
            } else {
                Err(SeatError::NoXkbState)
            }),
    {
        if !self.xkb.state {
            return Err(SeatError::NoXkbState);
        }
        Ok(())
    }

    /// Takes note of the repeat rate and delay that the compositor gives.
    pub fn handle_repeat_info(&mut self, rate: i32, delay: i32)
        ensures
            old(self).wf() ==> final(self).wf(),
            *final(self) == (NLockState {
                seat: NLockSeat { repeat_rate: rate, repeat_delay: delay, ..old(self).seat },
                ..*old(self)
            }),
    {
        self.seat.repeat_rate = rate;
        self.seat.repeat_delay = delay;
    }

    /// The seat has named its devices. For each kind that it has, the
    /// device held so far is released and a new one is got.
    pub fn handle_capabilities(&mut self, keyboard: bool, pointer: bool) -> (r: CapabilityPlan)
        ensures
            old(self).wf() ==> final(self).wf(),
            r == (CapabilityPlan {
                release_keyboard: keyboard && old(self).seat.keyboard,
                get_keyboard: keyboard,
                release_pointer: pointer && old(self).seat.pointer,
                get_pointer: pointer,
            }),
            *final(self) == (NLockState {
                seat: NLockSeat {
                    keyboard: old(self).seat.keyboard || keyboard,
                    pointer: old(self).seat.pointer || pointer,
                    ..old(self).seat
                },
                ..*old(self)
            }),
    {
        let plan: CapabilityPlan = CapabilityPlan {
            release_keyboard: keyboard && self.seat.keyboard,
            get_keyboard: keyboard,
            release_pointer: pointer && self.seat.pointer,
            get_pointer: pointer,
        };
        if keyboard {
            self.seat.keyboard = true;
        }
        if pointer {
            self.seat.pointer = true;
        }
        plan
    }

    /// Tells whether the cursor is to be hidden when the pointer enters.
    pub fn hides_cursor(&self) -> (r: bool)
        ensures
            r == self.config.general.hide_cursor,
    {
        self.config.general.hide_cursor
    }
}

/// A key leaves success as it is, whatever the key.
pub proof fn lemma_key_keeps_success(e: Entry, keysym: u32, cp: u32)
    requires
        e.auth_state == AuthState::Success,
    ensures
        key_effect(e, keysym, cp).0.auth_state == AuthState::Success,
        key_effect(e, keysym, cp).1 is None,
{
}

/// While a submission is pending, a key pressed any number of times
/// submits nothing, and the submission stays pending.
pub proof fn lemma_pending_keys_submit_nothing(e: Entry, keysym: u32, cp: u32, n: nat)
    requires
        e.pending,
    ensures
        keys_effect(e, keysym, cp, n).0.pending,
        keys_effect(e, keysym, cp, n).1 is None,
    decreases n,
{
    if n > 0 {
        lemma_pending_keys_submit_nothing(e, keysym, cp, (n - 1) as nat);
    }
}

/// A key pressed any number of times in a row submits the password at
/// most once: after the press that submits, the submission is pending
/// and the presses that follow submit nothing.
pub proof fn lemma_repeat_submits_once(e: Entry, keysym: u32, cp: u32, n: nat)
    ensures
        keys_effect(e, keysym, cp, n).1 is Some ==> keys_effect(e, keysym, cp, n).0.pending,
        keys_effect(e, keysym, cp, n).1 is Some ==> keys_effect(e, keysym, cp, n + 1).1
            == keys_effect(e, keysym, cp, n).1 && key_effect(
            keys_effect(e, keysym, cp, n).0,
            keysym,
            cp,
        ).1 is None,
    decreases n,
{
    if n > 0 {
        lemma_repeat_submits_once(e, keysym, cp, (n - 1) as nat);
    }
}

/// A key that types, pressed `n` times in a row, adds its character `n`
/// times: a replay of `n` ticks loses none and adds none.
pub proof fn lemma_replay_types_each_tick(e: Entry, keysym: u32, cp: u32, n: nat)
    requires
        !is_submit_key(keysym),
        !is_erase_key(keysym),
        is_typed(cp),
    ensures
        keys_effect(e, keysym, cp, n) == (
            Entry { password: e.password + Seq::new(n, |i: int| cp as char), ..e },
            None::<Seq<char>>,
        ),
    decreases n,
{
    if n > 0 {
        lemma_replay_types_each_tick(e, keysym, cp, (n - 1) as nat);
        assert((e.password + Seq::new((n - 1) as nat, |i: int| cp as char)).push(cp as char)
            =~= e.password + Seq::new(n, |i: int| cp as char));
    }
}

/// An erase key, pressed `n` times in a row, removes the last `n`
/// characters, or all of them if there are fewer.
pub proof fn lemma_replay_erases_each_tick(e: Entry, keysym: u32, cp: u32, n: nat)
    requires
        !is_submit_key(keysym),
        is_erase_key(keysym),
    ensures
        keys_effect(e, keysym, cp, n) == (
            Entry {
                password: e.password.subrange(
                    0,
                    if n <= e.password.len() {
                        e.password.len() - n
                    } else {
                        0
                    },
                ),
                ..e
            },
            None::<Seq<char>>,
        ),
    decreases n,
{
    if n == 0 {
        assert(e.password.subrange(0, e.password.len() as int) =~= e.password);
    } else {
        lemma_replay_erases_each_tick(e, keysym, cp, (n - 1) as nat);
        let before = keys_effect(e, keysym, cp, (n - 1) as nat).0.password;
        if before.len() > 0 {
            assert(before.drop_last() =~= e.password.subrange(0, e.password.len() - n));
        }
    }
}

/// Whether the repeat is in order: the seat takes the repeat timer for set
/// exactly if one timer is armed under its tag, none is armed twice, and
/// none is set without a multiplexer.
pub open spec fn repeat_in_order(w: KeyWorld) -> bool {
    &&& w.seat.repeat_timer_set ==> w.epoll
    &&& armed_count(w.timers, EventType::KeyboardRepeat.tag()) == (if w.seat.repeat_timer_set {
        1nat
    } else {
        0nat
    })
}

/// There is one repeat at a time. Whatever the key event, it leaves the
/// repeat in order: the old timer is disarmed before a new one is armed,
/// so that at most one is armed, and the event does not fail on a timer.
pub proof fn lemma_one_repeat_at_a_time(w: KeyWorld, pressed: bool, keysym: u32, cp: u32)
    requires
        repeat_in_order(w),
    ensures
        repeat_in_order(key_event_world(w, pressed, keysym, cp).0),
        armed_count(
            key_event_world(w, pressed, keysym, cp).0.timers,
            EventType::KeyboardRepeat.tag(),
        ) <= 1,
        w.epoll ==> key_event_world(w, pressed, keysym, cp).1.error is None,
{
    let tag = EventType::KeyboardRepeat.tag();
    let w1 = if pressed {
        pressed_world(w, keysym, cp).0
    } else {
        w
    };
    lemma_count_after_unset(w1.timers, tag);
    match stopped_world(w1) {
        Ok((w2, _)) => {
            lemma_count_push(
                w2.timers,
                NLockTimer { id: tag, expiration: repeat_expiration(w2.seat) },
                tag,
            );
        },
        Err(_) => {},
    }
}

impl SeatError {
    /// The error in words.
    pub fn message(self) -> (r: String)
        ensures
            r@ == (match self {
                SeatError::NoKeymap => "failed to get keymap"@,
                SeatError::NoXkbState => "xkb state not set"@,
            }),
    {
        match self {
            SeatError::NoKeymap => String::from_str("failed to get keymap"),
            SeatError::NoXkbState => String::from_str("xkb state not set"),
        }
    }
}

} // verus!
