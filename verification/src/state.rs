//! The coordinator: the one value that the event loop owns and every event
//! handler changes. It holds what the lock screen knows of the session, the
//! compositor's globals, the outputs, the keyboard, the password typed so
//! far and the state of the authentication.
//!
//! The handlers touch neither the display connection nor the worker. Each
//! changes the state and says in its result what is to be done outside.

use vstd::prelude::*;
use vstd::string::*;
use vstd::utf8::encode_utf8;
use crate::auth::{scrub_password, AuthOutcome, AuthRequest, AuthState};
use crate::buffer::{NLockBuffer, NLockBufferState};
use crate::config::NLockConfig;
use crate::event::NLockTimer;
use crate::seat::{NLockSeat, NLockXkb};
use crate::util::text_is;
use crate::surface::{
    CreateStep,
    NLockSurface,
    RenderPlan,
    Subpixel,
};

verus! {

/// The globals of the compositor that have been bound.
#[derive(Copy, Clone, Debug, PartialEq, Eq, Structural)]
pub struct NLockGlobals {
    pub compositor: bool,
    pub subcompositor: bool,
    pub shm: bool,
    pub r_seat: bool,
    pub session_lock_manager: bool,
}

/// A kind of global that the registry announces.
#[derive(Copy, Clone, Debug, PartialEq, Eq, Structural)]
pub enum GlobalKind {
    Compositor,
    Subcompositor,
    Shm,
    Seat,
    Output,
    SessionLockManager,
    /// A global that the lock screen has no use for.
    Other,
}

/// How to end the session lock.
#[derive(Copy, Clone, Debug, PartialEq, Eq, Structural)]
pub enum UnlockStep {
    /// There is no session lock.
    Nothing,
    /// The session is locked: unlock it and destroy the lock.
    UnlockAndDestroy,
    /// The lock was never granted: destroy it.
    Destroy,
}

/// What the password entry consists of, as the handlers of keys and of
/// replies see it.
pub struct Entry {
    pub password: Seq<char>,
    pub auth_state: AuthState,
    pub pending: bool,
}

/// The state of the lock screen.
pub struct NLockState {
    pub config: NLockConfig,
    /// Cleared when the event loop is to end.
    pub running: bool,
    /// Whether the compositor has granted the lock.
    pub locked: bool,
    /// Whether the lock has been given up.
    pub unlocked: bool,
    /// Set when the overlays are out of date.
    pub state_changed: bool,
    pub registry: bool,
    pub globals: NLockGlobals,
    /// Whether a session lock has been asked for and not yet given up.
    pub session_lock: bool,
    pub surfaces: Vec<NLockSurface>,
    pub seat: NLockSeat,
    pub xkb: NLockXkb,
    pub password: String,
    /// Whether the readiness multiplexer exists.
    pub epoll: bool,
    /// Whether the notifier is registered with the multiplexer.
    pub notifier_registered: bool,
    /// The timers that are armed.
    pub timers: Vec<NLockTimer>,
    pub auth_state: AuthState,
    /// Whether a password has been submitted and not yet answered.
    pub auth_pending: bool,
}

/// The kind of the global with the given interface name.
pub open spec fn global_kind(interface: Seq<char>) -> GlobalKind {
    if interface == "wl_compositor"@ {
        GlobalKind::Compositor
    } else if interface == "wl_subcompositor"@ {
        GlobalKind::Subcompositor
    } else if interface == "wl_shm"@ {
        GlobalKind::Shm
    } else if interface == "wl_seat"@ {
        GlobalKind::Seat
    } else if interface == "wl_output"@ {
        GlobalKind::Output
    } else if interface == "ext_session_lock_manager_v1"@ {
        GlobalKind::SessionLockManager
    } else {
        GlobalKind::Other
    }
}

/// The globals after one more of the given kind is bound.
pub open spec fn globals_with(g: NLockGlobals, kind: GlobalKind) -> NLockGlobals {
    match kind {
        GlobalKind::Compositor => NLockGlobals { compositor: true, ..g },
        GlobalKind::Subcompositor => NLockGlobals { subcompositor: true, ..g },
        GlobalKind::Shm => NLockGlobals { shm: true, ..g },
        GlobalKind::Seat => NLockGlobals { r_seat: true, ..g },
        GlobalKind::SessionLockManager => NLockGlobals { session_lock_manager: true, ..g },
        _ => g,
    }
}

/// The first of the five globals that the lock screen cannot do without
/// and that is missing: the compositor, the shared memory, the seat, an
/// output, the session lock manager.
pub open spec fn first_missing(g: NLockGlobals, outputs: nat) -> Option<GlobalKind> {
    if !g.compositor {
        Some(GlobalKind::Compositor)
    } else if !g.shm {
        Some(GlobalKind::Shm)
    } else if !g.r_seat {
        Some(GlobalKind::Seat)
    } else if outputs == 0 {
        Some(GlobalKind::Output)
    } else if !g.session_lock_manager {
        Some(GlobalKind::SessionLockManager)
    } else {
        None
    }
}

/// A password submission: nothing happens while one is pending, nor after
/// a success. Else the password leaves the entry, the state shown goes
/// back to idle, and the submission is pending.
pub open spec fn submitted(e: Entry) -> (Entry, Option<Seq<char>>) {
    if e.pending || e.auth_state == AuthState::Success {
        (e, None)
    } else {
        (
            Entry { password: Seq::<char>::empty(), auth_state: AuthState::Idle, pending: true },
            Some(e.password),
        )
    }
}

/// The answer to a submission: the next submission is free to go, and the
/// state shown is success or failure as the answer says. An answer that is
/// lost changes nothing of what is shown, and nothing undoes a success.
pub open spec fn replied(e: Entry, outcome: AuthOutcome) -> Entry {
    Entry {
        password: e.password,
        auth_state: if e.auth_state == AuthState::Success {
            AuthState::Success
        } else {
            match outcome {
                AuthOutcome::Granted => AuthState::Success,
                AuthOutcome::Denied => AuthState::Fail,
                AuthOutcome::Lost => e.auth_state,
            }
        },
        pending: false,
    }
}

/// Whether `after` is what a render of every surface makes of `before`,
/// and `plans` are the plans of those renders, surface by surface.
pub open spec fn rendered_all(
    after: Seq<NLockSurface>,
    before: Seq<NLockSurface>,
    plans: Seq<Option<RenderPlan>>,
) -> bool {
    &&& after.len() == before.len()
    &&& plans.len() == before.len()
    &&& forall|j: int|
        0 <= j < before.len() ==> {
            &&& (#[trigger] plans[j]) == before[j].plan_of()
            &&& after[j].is_render_of(before[j])
        }
}

/// Gives the globals with one more of the given kind bound.
fn with_global(g: NLockGlobals, kind: GlobalKind) -> (r: NLockGlobals)
    ensures
        r == globals_with(g, kind),
{
    match kind {
        GlobalKind::Compositor => NLockGlobals { compositor: true, ..g },
        GlobalKind::Subcompositor => NLockGlobals { subcompositor: true, ..g },
        GlobalKind::Shm => NLockGlobals { shm: true, ..g },
        GlobalKind::Seat => NLockGlobals { r_seat: true, ..g },
        GlobalKind::SessionLockManager => NLockGlobals { session_lock_manager: true, ..g },
        _ => g,
    }
}

/// Tells the kind of the global with the given interface name.
pub fn classify_global(interface: &str) -> (r: GlobalKind)
    ensures
        r == global_kind(interface@),
{
    if text_is(interface, "wl_compositor") {
        GlobalKind::Compositor
    } else if text_is(interface, "wl_subcompositor") {
        GlobalKind::Subcompositor
    } else if text_is(interface, "wl_shm") {
        GlobalKind::Shm
    } else if text_is(interface, "wl_seat") {
        GlobalKind::Seat
    } else if text_is(interface, "wl_output") {
        GlobalKind::Output
    } else if text_is(interface, "ext_session_lock_manager_v1") {
        GlobalKind::SessionLockManager
    } else {
        GlobalKind::Other
    }
}

impl NLockState {
    /// The password entry.
    pub open spec fn entry(self) -> Entry {
        Entry { password: self.password@, auth_state: self.auth_state, pending: self.auth_pending }
    }

    /// Whether the state is sound: the surfaces are numbered in their
    /// order and each is sound, a repeat timer is set only where there is a
    /// multiplexer to hold it, and a success has ended the event loop.
    pub open spec fn wf(self) -> bool {
        &&& forall|i: int|
            0 <= i < self.surfaces@.len() ==> (#[trigger] self.surfaces@[i]).index == i
                && self.surfaces@[i].wf()
        &&& self.seat.repeat_timer_set ==> self.epoll
        &&& self.auth_state == AuthState::Success ==> !self.running
    }

    /// Whether `self` differs from `old` at most in the password entry and
    /// in the two flags for the event loop.
    pub open spec fn same_but_entry(self, old: NLockState) -> bool {
        &&& self.config == old.config
        &&& self.locked == old.locked
        &&& self.unlocked == old.unlocked
        &&& self.registry == old.registry
        &&& self.globals == old.globals
        &&& self.session_lock == old.session_lock
        &&& self.surfaces == old.surfaces
        &&& self.seat == old.seat
        &&& self.xkb == old.xkb
        &&& self.epoll == old.epoll
        &&& self.notifier_registered == old.notifier_registered
        &&& self.timers == old.timers
    }

    /// Whether `self` differs from `old` at most in the globals and the
    /// surfaces.
    pub open spec fn same_but_outputs(self, old: NLockState) -> bool {
        &&& self.config == old.config
        &&& self.running == old.running
        &&& self.locked == old.locked
        &&& self.unlocked == old.unlocked
        &&& self.state_changed == old.state_changed
        &&& self.registry == old.registry
        &&& self.session_lock == old.session_lock
        &&& self.seat == old.seat
        &&& self.xkb == old.xkb
        &&& self.password == old.password
        &&& self.epoll == old.epoll
        &&& self.notifier_registered == old.notifier_registered
        &&& self.timers == old.timers
        &&& self.auth_state == old.auth_state
        &&& self.auth_pending == old.auth_pending
    }

    /// Whether every surface but the one at `idx` is as in `old`.
    pub open spec fn others_kept(self, old: NLockState, idx: int) -> bool {
        &&& self.surfaces@.len() == old.surfaces@.len()
        &&& forall|j: int|
            0 <= j < self.surfaces@.len() && j != idx ==> #[trigger] self.surfaces@[j]
                == old.surfaces@[j]
    }

    /// The state at start: running, not locked, nothing bound, no output,
    /// an empty password, authentication idle.
    pub fn new(config: NLockConfig) -> (r: NLockState)
        ensures
            r.wf(),
            r.config == config,
            r.running && !r.locked && !r.unlocked && !r.state_changed && !r.registry,
            r.globals == (NLockGlobals {
                compositor: false,
                subcompositor: false,
                shm: false,
                r_seat: false,
                session_lock_manager: false,
            }),
            !r.session_lock,
            r.surfaces@.len() == 0,
            r.seat.is_new(),
            r.xkb == (NLockXkb { keymap: false, state: false }),
            r.password@ == Seq::<char>::empty(),
            !r.epoll,
            !r.notifier_registered,
            r.timers@.len() == 0,
            r.auth_state == AuthState::Idle,
            !r.auth_pending,
    {
        NLockState {
            config,
            running: true,
            locked: false,
            unlocked: false,
            state_changed: false,
            registry: false,
            globals: NLockGlobals {
                compositor: false,
                subcompositor: false,
                shm: false,
                r_seat: false,
                session_lock_manager: false,
            },
            session_lock: false,
            surfaces: Vec::new(),
            seat: NLockSeat::new(),
            xkb: NLockXkb::new(),
            password: String::new(),
            epoll: false,
            notifier_registered: false,
            timers: Vec::new(),
            auth_state: AuthState::Idle,
            auth_pending: false,
        }
    }

    /// Notes that the registry has been asked for.
    pub fn get_registry(&mut self)
        ensures
            old(self).wf() ==> final(self).wf(),
            *final(self) == (NLockState { registry: true, ..*old(self) }),
    {
        self.registry = true;
    }

    /// Gives a newly announced output its surface.
    fn add_output(&mut self)
        ensures
            old(self).wf() ==> final(self).wf(),
            final(self).surfaces@.len() == old(self).surfaces@.len() + 1,
            final(self).surfaces@.subrange(0, old(self).surfaces@.len() as int) == old(
                self,
            ).surfaces@,
            final(self).surfaces@.last().is_new(old(self).surfaces@.len() as usize),
            final(self).same_but_outputs(*old(self)),
            final(self).globals == old(self).globals,
    {
        let index: usize = self.surfaces.len();
        let surface: NLockSurface = NLockSurface::new(index);
        self.surfaces.push(surface);
    }

    /// Takes note that a global of the given kind is bound.
    fn note_bound(&mut self, kind: GlobalKind)
        ensures
            *final(self) == (NLockState {
                globals: globals_with(old(self).globals, kind),
                ..*old(self)
            }),
    {
        let bound: NLockGlobals = with_global(self.globals, kind);
        self.globals = bound;
    }

    /// Takes note of a global that the registry announces, and says of
    /// which kind it is. A global of use is to be bound. An output gets a
    /// surface of its own, numbered in the order of announcement.
    pub fn handle_global(&mut self, interface: &str) -> (r: GlobalKind)
        ensures
            old(self).wf() ==> final(self).wf(),
            r == global_kind(interface@),
            final(self).globals == globals_with(old(self).globals, r),
            final(self).same_but_outputs(*old(self)),
            r != GlobalKind::Output ==> final(self).surfaces == old(self).surfaces,
            r == GlobalKind::Output ==> {
                &&& final(self).surfaces@.len() == old(self).surfaces@.len() + 1
                &&& final(self).surfaces@.subrange(0, old(self).surfaces@.len() as int) == old(
                    self,
                ).surfaces@
                &&& final(self).surfaces@.last().is_new(old(self).surfaces@.len() as usize)
            },
    {
        let kind: GlobalKind = classify_global(interface);
        match kind {
            GlobalKind::Output => {
                self.add_output();
            },
            _ => {
                self.note_bound(kind);
            },
        }
        kind
    }

    /// The first required global that is missing after the registry has
    /// announced what there is. The lock screen must not start without it.
    pub fn missing_global(&self) -> (r: Option<GlobalKind>)
        ensures
            r == first_missing(self.globals, self.surfaces@.len()),
    {
        if !self.globals.compositor {
            Some(GlobalKind::Compositor)
        } else if !self.globals.shm {
            Some(GlobalKind::Shm)
        } else if !self.globals.r_seat {
            Some(GlobalKind::Seat)
        } else if self.surfaces.len() == 0 {
            Some(GlobalKind::Output)
        } else if !self.globals.session_lock_manager {
            Some(GlobalKind::SessionLockManager)
        } else {
            None
        }
    }

    /// Asks for the session lock, if there is a manager to ask. Tells
    /// whether the request is to be sent.
    pub fn lock(&mut self) -> (r: bool)
        ensures
            old(self).wf() ==> final(self).wf(),
            r == old(self).globals.session_lock_manager,
            final(self).session_lock == (old(self).session_lock || r),
            *final(self) == (NLockState { session_lock: final(self).session_lock, ..*old(self) }),
    {
        if self.globals.session_lock_manager {
            self.session_lock = true;
            true
        } else {
            false
        }
    }

    /// Whether every surface of `self` is the surface of `old` torn down:
    /// destroyed, without buffers and without drawable objects.
    pub open spec fn all_destroyed(self, old: NLockState) -> bool {
        &&& self.surfaces@.len() == old.surfaces@.len()
        &&& forall|j: int|
            0 <= j < self.surfaces@.len() ==> (#[trigger] self.surfaces@[j]).is_destroyed_from(
                old.surfaces@[j],
            )
    }

    /// Whether `self` is `old` with the session lock given up: the lock is
    /// gone, the session counts as unlocked, every surface is torn down,
    /// the password is empty, and nothing else has changed.
    pub open spec fn is_unlocked_from(self, old: NLockState) -> bool {
        &&& !self.session_lock
        &&& !self.locked
        &&& self.unlocked
        &&& self.password@ == Seq::<char>::empty()
        &&& self.all_destroyed(old)
        &&& self.config == old.config
        &&& self.running == old.running
        &&& self.state_changed == old.state_changed
        &&& self.registry == old.registry
        &&& self.globals == old.globals
        &&& self.seat == old.seat
        &&& self.xkb == old.xkb
        &&& self.epoll == old.epoll
        &&& self.notifier_registered == old.notifier_registered
        &&& self.timers == old.timers
        &&& self.auth_state == old.auth_state
        &&& self.auth_pending == old.auth_pending
    }

    /// How the session lock is ended: not at all without one, by unlocking
    /// where the compositor has granted it, else by destroying it.
    pub open spec fn unlock_step(self) -> UnlockStep {
        if !self.session_lock {
            UnlockStep::Nothing
        } else if self.locked {
            UnlockStep::UnlockAndDestroy
        } else {
            UnlockStep::Destroy
        }
    }

    /// Gives the session lock up. Without a lock nothing happens. Else
    /// every surface is destroyed with its buffers, whatever became of its
    /// renders; the session counts as unlocked; and the password is scrubbed.
    pub fn unlock(&mut self) -> (r: UnlockStep)
        ensures
            old(self).wf() ==> final(self).wf(),
            r == old(self).unlock_step(),
            r == UnlockStep::Nothing ==> *final(self) == *old(self),
            r != UnlockStep::Nothing ==> final(self).is_unlocked_from(*old(self)),
    {
        if !self.session_lock {
            return UnlockStep::Nothing;
        }
        let step: UnlockStep = if self.locked {
            UnlockStep::UnlockAndDestroy
        } else {
            UnlockStep::Destroy
        };
        let mut i: usize = 0;
        while i < self.surfaces.len()
            invariant
                i <= self.surfaces@.len(),
                self.surfaces@.len() == old(self).surfaces@.len(),
                forall|j: int|
                    0 <= j < i ==> (#[trigger] self.surfaces@[j]).is_destroyed_from(
                        old(self).surfaces@[j],
                    ),
                forall|j: int|
                    i <= j < self.surfaces@.len() ==> self.surfaces@[j] == old(self).surfaces@[j],
                self.config == old(self).config,
                self.running == old(self).running,
                self.locked == old(self).locked,
                self.unlocked == old(self).unlocked,
                self.state_changed == old(self).state_changed,
                self.registry == old(self).registry,
                self.globals == old(self).globals,
                self.session_lock == old(self).session_lock,
                self.seat == old(self).seat,
                self.xkb == old(self).xkb,
                self.password == old(self).password,
                self.epoll == old(self).epoll,
                self.notifier_registered == old(self).notifier_registered,
                self.timers == old(self).timers,
                self.auth_state == old(self).auth_state,
                self.auth_pending == old(self).auth_pending,
            decreases self.surfaces@.len() - i,
        {
            let _ = self.surfaces[i].destroy();
            i += 1;
        }
        self.session_lock = false;
        self.locked = false;
        self.unlocked = true;
        self.clear_password();
        step
    }

    /// Scrubs the password typed so far.
    pub fn clear_password(&mut self)
        ensures
            old(self).wf() ==> final(self).wf(),
            final(self).password@ == Seq::<char>::empty(),
            final(self).same_but_entry(*old(self)),
            final(self).running == old(self).running,
            final(self).state_changed == old(self).state_changed,
            final(self).auth_state == old(self).auth_state,
            final(self).auth_pending == old(self).auth_pending,
    {
        scrub_password(&mut self.password);
    }

    /// The length of the password typed so far, in bytes of UTF-8.
    pub fn password_len(&self) -> (r: usize)
        ensures
            r == encode_utf8(self.password@).len() as usize,
            self.password@.len() == 0 ==> r == 0,
    {
        self.password.as_str().len()
    }

    /// Submits the password typed so far. While an earlier submission is
    /// unanswered, and after a success, nothing happens. Else the state
    /// shown goes back to
    /// idle, the password leaves the entry, and the request to hand to the
    /// worker is returned.
    pub fn submit_password(&mut self) -> (r: Option<AuthRequest>)
        ensures
            old(self).wf() ==> final(self).wf(),
            final(self).entry() == submitted(old(self).entry()).0,
            match r {
                Some(AuthRequest::Password(p)) => submitted(old(self).entry()).1 == Some(p@),
                Some(AuthRequest::Exit) => false,
                None => submitted(old(self).entry()).1 is None,
            },
            final(self).same_but_entry(*old(self)),
            final(self).running == old(self).running,
            final(self).state_changed == old(self).state_changed,
    {
        if self.auth_pending {
            return None;
        }
        match self.auth_state {
            AuthState::Success => {
                return None;
            },
            _ => {},
        }
        self.auth_state = AuthState::Idle;
        self.auth_pending = true;
        let mut password: String = String::new();
        core::mem::swap(&mut self.password, &mut password);
        Some(AuthRequest::Password(password))
    }

    /// Takes the answer to a submission. A granted one shows success and
    /// ends the event loop. A denied one shows failure, unless success is
    /// shown already, and asks for a render. A lost one changes nothing of
    /// that. In each case the next submission is free to go. Tells whether
    /// the event loop is to be woken.
    pub fn handle_auth_reply(&mut self, outcome: AuthOutcome) -> (wake: bool)
        ensures
            old(self).wf() ==> final(self).wf(),
            wake == (outcome != AuthOutcome::Lost),
            final(self).entry() == replied(old(self).entry(), outcome),
            final(self).password == old(self).password,
            final(self).running == (old(self).running && outcome != AuthOutcome::Granted),
            final(self).state_changed == (old(self).state_changed || outcome
                == AuthOutcome::Denied),
            final(self).same_but_entry(*old(self)),
    {
        self.auth_pending = false;
        let succeeded: bool = match self.auth_state {
            AuthState::Success => true,
            _ => false,
        };
        match outcome {
            AuthOutcome::Granted => {
                self.auth_state = AuthState::Success;
                self.running = false;
                true
            },
            AuthOutcome::Denied => {
                if !succeeded {
                    self.auth_state = AuthState::Fail;
                }
                self.state_changed = true;
                true
            },
            AuthOutcome::Lost => false,
        }
    }

    /// Takes note that the compositor has granted the lock.
    pub fn handle_locked(&mut self)
        ensures
            old(self).wf() ==> final(self).wf(),
            *final(self) == (NLockState { locked: true, ..*old(self) }),
    {
        self.locked = true;
    }

    /// Takes note that the compositor has ended the lock: gives it up, as
    /// [`NLockState::unlock`] does.
    pub fn handle_finished(&mut self) -> (r: UnlockStep)
        ensures
            old(self).wf() ==> final(self).wf(),
            r == old(self).unlock_step(),
            r == UnlockStep::Nothing ==> *final(self) == *old(self),
            r != UnlockStep::Nothing ==> final(self).is_unlocked_from(*old(self)),
    {
        self.unlock()
    }

    /// Takes note of an output's physical size and of how its pixels lie.
    /// Tells whether there is an output of that number.
    pub fn handle_output_geometry(
        &mut self,
        idx: usize,
        physical_width: i32,
        physical_height: i32,
        subpixel: Subpixel,
    ) -> (r: bool)
        ensures
            old(self).wf() ==> final(self).wf(),
            r == (idx < old(self).surfaces@.len()),
            !r ==> *final(self) == *old(self),
            r ==> {
                &&& final(self).surfaces@[idx as int] == (NLockSurface {
                    subpixel: Some(subpixel),
                    physical_width: Some(physical_width),
                    physical_height: Some(physical_height),
                    ..old(self).surfaces@[idx as int]
                })
                &&& final(self).others_kept(*old(self), idx as int)
                &&& final(self).same_but_outputs(*old(self))
                &&& final(self).globals == old(self).globals
            },
    {
        if idx >= self.surfaces.len() {
            return false;
        }
        self.surfaces[idx].subpixel = Some(subpixel);
        self.surfaces[idx].physical_width = Some(physical_width);
        self.surfaces[idx].physical_height = Some(physical_height);
        true
    }

    /// Takes note of an output's name. Tells whether there is an output of
    /// that number.
    pub fn handle_output_name(&mut self, idx: usize, name: String) -> (r: bool)
        ensures
            old(self).wf() ==> final(self).wf(),
            r == (idx < old(self).surfaces@.len()),
            !r ==> *final(self) == *old(self),
            r ==> {
                &&& final(self).surfaces@[idx as int] == (NLockSurface {
                    output_name: Some(name),
                    ..old(self).surfaces@[idx as int]
                })
                &&& final(self).others_kept(*old(self), idx as int)
                &&& final(self).same_but_outputs(*old(self))
                &&& final(self).globals == old(self).globals
            },
    {
        if idx >= self.surfaces.len() {
            return false;
        }
        self.surfaces[idx].output_name = Some(name);
        true
    }

    /// Takes note of an output's scale factor. Tells whether there is an
    /// output of that number.
    pub fn handle_output_scale(&mut self, idx: usize, factor: i32) -> (r: bool)
        ensures
            old(self).wf() ==> final(self).wf(),
            r == (idx < old(self).surfaces@.len()),
            !r ==> *final(self) == *old(self),
            r ==> {
                &&& final(self).surfaces@[idx as int] == (NLockSurface {
                    output_scale: factor,
                    ..old(self).surfaces@[idx as int]
                })
                &&& final(self).others_kept(*old(self), idx as int)
                &&& final(self).same_but_outputs(*old(self))
                &&& final(self).globals == old(self).globals
            },
    {
        if idx >= self.surfaces.len() {
            return false;
        }
        self.surfaces[idx].output_scale = factor;
        true
    }

    /// An output has described itself: its surface is created, provided
    /// that there is a compositor to create it and a session lock to
    /// create it for.
    pub fn handle_output_done(&mut self, idx: usize) -> (r: CreateStep)
        ensures
            old(self).wf() ==> final(self).wf(),
            final(self).same_but_outputs(*old(self)),
            final(self).globals == old(self).globals,
            idx >= old(self).surfaces@.len() || !old(self).globals.compositor || !old(
                self,
            ).session_lock ==> r == CreateStep::Nothing && *final(self) == *old(self),
            idx < old(self).surfaces@.len() && old(self).globals.compositor && old(
                self,
            ).session_lock ==> {
                let before = old(self).surfaces@[idx as int];
                let after = final(self).surfaces@[idx as int];
                &&& final(self).others_kept(*old(self), idx as int)
                &&& r == before.create_step(old(self).globals.subcompositor)
                &&& after.is_created_from(before, old(self).globals.subcompositor)
            },
    {
        if idx >= self.surfaces.len() || !self.globals.compositor || !self.session_lock {
            return CreateStep::Nothing;
        }
        let has_subcompositor: bool = self.globals.subcompositor;
        self.surfaces[idx].create_surface(has_subcompositor)
    }

    /// The compositor assigns a surface its size. The size is taken, and
    /// the surface renders if it is ready. The configure is to be
    /// acknowledged whatever becomes of the render, for every output that
    /// there is: what a render lacks, be it the shared memory, a buffer or
    /// a drawable object, fails that render and nothing else. Only for an
    /// output that does not exist is the event ignored and `None` returned.
    pub fn handle_configure(&mut self, idx: usize, width: u32, height: u32) -> (r: Option<
        Option<RenderPlan>,
    >)
        ensures
            old(self).wf() ==> final(self).wf(),
            r is Some <==> idx < old(self).surfaces@.len(),
            r is None ==> *final(self) == *old(self),
            final(self).same_but_outputs(*old(self)),
            final(self).globals == old(self).globals,
            r is Some ==> {
                let sized = NLockSurface {
                    width: Some(width),
                    height: Some(height),
                    ..old(self).surfaces@[idx as int]
                };
                &&& final(self).others_kept(*old(self), idx as int)
                &&& r.unwrap() == sized.plan_of()
                &&& final(self).surfaces@[idx as int].is_render_of(sized)
            },
    {
        if idx >= self.surfaces.len() {
            return None;
        }
        self.surfaces[idx].width = Some(width);
        self.surfaces[idx].height = Some(height);
        let plan: Option<RenderPlan> = self.surfaces[idx].render();
        Some(plan)
    }

    /// The compositor has released a buffer: it is free again. Tells
    /// whether there is such a buffer.
    pub fn handle_buffer_release(&mut self, idx: usize, buffer: usize) -> (r: bool)
        ensures
            old(self).wf() ==> final(self).wf(),
            r == (idx < old(self).surfaces@.len() && buffer < old(self).surfaces@[idx as int].buffers@.len()),
            !r ==> *final(self) == *old(self),
            final(self).same_but_outputs(*old(self)),
            final(self).globals == old(self).globals,
            r ==> {
                let before = old(self).surfaces@[idx as int];
                let after = final(self).surfaces@[idx as int];
                &&& final(self).others_kept(*old(self), idx as int)
                &&& after.same_but_buffers(before)
                &&& after.buffers@.len() == before.buffers@.len()
                &&& after.buffers@[buffer as int] == (NLockBuffer {
                    state: NLockBufferState { in_use: false },
                    ..before.buffers@[buffer as int]
                })
                &&& forall|k: int|
                    0 <= k < after.buffers@.len() && k != buffer ==> #[trigger] after.buffers@[k]
                        == before.buffers@[k]
            },
    {
        if idx >= self.surfaces.len() {
            return false;
        }
        if buffer >= self.surfaces[idx].buffers.len() {
            return false;
        }
        self.surfaces[idx].buffers[buffer].release();
        true
    }

    /// Renders every surface that is ready, in the order of the outputs,
    /// and clears the flag that asked for it. Gives the plan of each
    /// surface, `None` for one that does not render.
    pub fn render_all(&mut self) -> (r: Vec<Option<RenderPlan>>)
        ensures
            old(self).wf() ==> final(self).wf(),
            r@.len() == old(self).surfaces@.len(),
            final(self).surfaces@.len() == old(self).surfaces@.len(),
            !final(self).state_changed,
            rendered_all(final(self).surfaces@, old(self).surfaces@, r@),
            final(self).same_but_outputs(NLockState { state_changed: false, ..*old(self) }),
            final(self).globals == old(self).globals,
    {
        let mut plans: Vec<Option<RenderPlan>> = Vec::new();
        let mut i: usize = 0;
        while i < self.surfaces.len()
            invariant
                i <= self.surfaces@.len(),
                plans@.len() == i,
                self.surfaces@.len() == old(self).surfaces@.len(),
                forall|j: int| i <= j < self.surfaces@.len() ==> self.surfaces@[j] == old(self).surfaces@[j],
                forall|j: int|
                    0 <= j < i ==> {
                        &&& (#[trigger] plans@[j]) == old(self).surfaces@[j].plan_of()
                        &&& self.surfaces@[j].is_render_of(old(self).surfaces@[j])
                    },
                self.same_but_outputs(*old(self)),
                self.globals == old(self).globals,
                old(self).wf() ==> self.wf(),
            decreases self.surfaces@.len() - i,
        {
            let plan: Option<RenderPlan> = self.surfaces[i].render();
            plans.push(plan);
            i += 1;
        }
        self.state_changed = false;
        plans
    }
}

impl NLockState {
    /// Renders every ready surface if the overlays are out of date, and
    /// not otherwise.
    pub fn render_if_changed(&mut self) -> (r: Option<Vec<Option<RenderPlan>>>)
        ensures
            old(self).wf() ==> final(self).wf(),
            r is Some <==> old(self).state_changed,
            r is None ==> *final(self) == *old(self),
            r is Some ==> {
                &&& r.unwrap()@.len() == old(self).surfaces@.len()
                &&& final(self).surfaces@.len() == old(self).surfaces@.len()
                &&& !final(self).state_changed
                &&& rendered_all(final(self).surfaces@, old(self).surfaces@, r.unwrap()@)
                &&& final(self).same_but_outputs(NLockState { state_changed: false, ..*old(self) })
                &&& final(self).globals == old(self).globals
            },
    {
        if self.state_changed {
            Some(self.render_all())
        } else {
            None
        }
    }
}

/// A submission that follows another before the answer is in asks nothing
/// of the worker and changes nothing: one submission is one request.
pub proof fn lemma_one_request_at_a_time(e: Entry)
    requires
        submitted(e).1 is Some,
    ensures
        submitted(e).0.pending,
        submitted(submitted(e).0) == (submitted(e).0, None::<Seq<char>>),
{
}

/// The answer to a submission frees the next one, unless it was a success.
pub proof fn lemma_reply_frees_submission(e: Entry, outcome: AuthOutcome)
    ensures
        !replied(e, outcome).pending,
        replied(e, outcome).auth_state != AuthState::Success ==> submitted(
            replied(e, outcome),
        ).1 == Some(e.password),
{
}

/// Success is final: no submission and no answer changes what is shown
/// once a check has succeeded, and nothing more is asked of the worker.
pub proof fn lemma_success_is_final(e: Entry, outcome: AuthOutcome)
    requires
        e.auth_state == AuthState::Success,
    ensures
        submitted(e) == (e, None::<Seq<char>>),
        replied(e, outcome).auth_state == AuthState::Success,
{
}

} // verus!
