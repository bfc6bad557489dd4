//! The lock session: from the grant of the lock over one renderer for each
//! output to the unlock.

use crate::config::Settings;
use crate::error::LockError;
use crate::event::{
    KeyEvent, KeyboardEvent, MouseEvent, PointerEventKind, SeatModifiers, keypress_event,
    keypress_of, keysym_char, modifiers_event, modifiers_of, mouse_event, mouse_event_of,
};
use crate::registry::{Registry, lists, order_of};
use crate::seat::SeatObject;
use crate::shader::{Pipeline, built};
use crate::state::{Frame, State, SurfaceConfiguration, surface_of};
use crate::ui::{Command, FormView, KeyActions, Message};
use vstd::prelude::*;

verus! {

/// The frames per second that the session aims at.
pub const FPS: u64 = 60;

/// The milliseconds between two frames at a frame rate.
pub open spec fn period_of(fps: u64) -> u64 {
    1000u64 / fps
}

/// The milliseconds between two ticks of the frame timer.
pub fn frame_period(fps: u64) -> (ms: u64)
    requires
        fps > 0,
    ensures
        ms == period_of(fps),
{
    1000 / fps
}

/// The milliseconds after which the event loop looks at the session even
/// if nothing happened: two frame periods.
pub fn loop_timeout(fps: u64) -> (ms: u64)
    requires
        fps > 0,
    ensures
        ms == 2 * period_of(fps),
{
    let period = frame_period(fps);
    assert(period <= 1000) by (nonlinear_arith)
        requires
            period == 1000u64 / fps,
            fps > 0,
    ;
    period * 2
}

/// What the event loop does when it has nothing else to do.
#[derive(Debug, Clone, Copy, PartialEq, Eq, Structural)]
pub enum LoopAction {
    /// Go on.
    Continue,
    /// Give the lock back, wait until the compositor has seen that, and
    /// stop the loop.
    UnlockAndStop,
    /// Stop the loop; the lock was given back before.
    Stop,
}

/// The state of a lock session.
#[derive(Debug)]
pub struct AppData {
    pub exit: bool,
    pub error: Option<LockError>,
    pub settings: Settings,
    pub username: String,
    pub session_lock: bool,
    pub renderers: Registry,
    pub seat_objects: Vec<SeatObject>,
    pub keyboard: Option<u32>,
    pub pointer: Option<u32>,
    pub modifiers: Option<SeatModifiers>,
}

/// Starts a session. A compositor without a session lock is fatal: there
/// is no session, and so no surface.
pub fn lock(settings: Settings, username: String, session_lock_supported: bool) -> (r: Result<
    AppData,
    LockError,
>)
    ensures
        match r {
            Ok(app) => {
                &&& session_lock_supported
                &&& !app.exit
                &&& app.error is None
                &&& app.settings == settings
                &&& app.username == username
                &&& app.session_lock
                &&& app.renderers@ == Map::<u32, State>::empty()
                &&& app.seat_objects@.len() == 0
                &&& app.keyboard is None
                &&& app.pointer is None
                &&& app.modifiers is None
                &&& app.wf()
            },
            Err(e) => !session_lock_supported && e == LockError::ProtocolUnsupported,
        },
{
    if !session_lock_supported {
        return Err(LockError::ProtocolUnsupported);
    }
    Ok(
        AppData {
            exit: false,
            error: None,
            settings,
            username,
            session_lock: true,
            renderers: Registry::new(),
            seat_objects: Vec::new(),
            keyboard: None,
            pointer: None,
            modifiers: None,
        },
    )
}

impl AppData {
    /// Every renderer is well formed and no surface has two.
    pub open spec fn wf(self) -> bool {
        self.renderers.wf()
    }

    /// Whether nothing but the renderers differs between two states.
    pub open spec fn same_but_renderers(self, other: AppData) -> bool {
        &&& self.exit == other.exit
        &&& self.error == other.error
        &&& self.settings == other.settings
        &&& self.username == other.username
        &&& self.session_lock == other.session_lock
        &&& self.seat_objects == other.seat_objects
        &&& self.keyboard == other.keyboard
        &&& self.pointer == other.pointer
        &&& self.modifiers == other.modifiers
    }

    /// Whether the session still takes outputs: not after one of them
    /// failed.
    pub fn accepts_outputs(&self) -> (r: bool)
        ensures
            r == (self.error is None),
    {
        self.error.is_none()
    }

    /// Takes the output under the identity of its surface, with what the
    /// device and the shader compiler answered for it. Where a renderer
    /// could be built it is registered and its pipeline returned. Where
    /// not, the session ends with that error. After a failure no output is
    /// taken.
    pub fn add_output(
        &mut self,
        key: u32,
        device: Result<(), String>,
        vertex: Result<Vec<u8>, String>,
        fragment: Result<Vec<u8>, String>,
        fallback: Result<Vec<u8>, String>,
        now: u64,
    ) -> (r: Option<Pipeline>)
        requires
            old(self).wf(),
        ensures
            final(self).wf(),
            final(self).settings == old(self).settings,
            final(self).username == old(self).username,
            final(self).session_lock == old(self).session_lock,
            final(self).seat_objects == old(self).seat_objects,
            final(self).keyboard == old(self).keyboard,
            final(self).pointer == old(self).pointer,
            final(self).modifiers == old(self).modifiers,
            old(self).error is Some ==> r is None && *final(self) == *old(self),
            old(self).error is None ==> match State::made(
                device,
                built(vertex, fragment, fallback),
                old(self).settings.lock_mode,
                old(self).username,
                now,
            ) {
                Ok((state, pipeline)) => {
                    &&& r == Some(pipeline)
                    &&& final(self).renderers@ == old(self).renderers@.insert(key, state)
                    &&& final(self).error is None
                    &&& final(self).exit == old(self).exit
                },
                Err(e) => {
                    &&& r is None
                    &&& final(self).renderers@ == old(self).renderers@
                    &&& final(self).error == Some(e)
                    &&& final(self).exit
                },
            },
    {
        if self.error.is_some() {
            return None;
        }
        match State::new(
            device,
            vertex,
            fragment,
            fallback,
            self.settings.lock_mode,
            self.username.clone(),
            now,
        ) {
            Ok((state, pipeline)) => {
                self.renderers.insert(key, state);
                Some(pipeline)
            },
            Err(e) => {
                self.error = Some(e);
                self.exit = true;
                None
            },
        }
    }

    /// The compositor took the lock back: the session ends.
    pub fn finished(&mut self)
        ensures
            final(self).exit,
            final(self).same_but_renderers(AppData { exit: true, ..*old(self) }),
            final(self).renderers == old(self).renderers,
    {
        self.exit = true;
    }

    /// What the loop does when it is idle: as soon as the session is to
    /// end, the lock is given back, once.
    pub fn idle(&mut self) -> (r: LoopAction)
        ensures
            r == if !old(self).exit {
                LoopAction::Continue
            } else if old(self).session_lock {
                LoopAction::UnlockAndStop
            } else {
                LoopAction::Stop
            },
            *final(self) == (AppData {
                session_lock: old(self).session_lock && !old(self).exit,
                ..*old(self)
            }),
    {
        if !self.exit {
            LoopAction::Continue
        } else if self.session_lock {
            self.session_lock = false;
            LoopAction::UnlockAndStop
        } else {
            LoopAction::Stop
        }
    }

    /// How the session ended: in failure where an output failed.
    pub fn finish(self) -> (r: Result<(), LockError>)
        ensures
            r == match self.error {
                Some(e) => Err::<(), LockError>(e),
                None => Ok::<(), LockError>(()),
            },
    {
        match self.error {
            Some(e) => Err(e),
            None => Ok(()),
        }
    }
}

/// What the caller does after a surface was given a size: configure the
/// surface, then draw the frame.
#[derive(Debug)]
pub struct Resized {
    pub surface: SurfaceConfiguration,
    pub frame: Frame,
}

/// Whether two maps of renderers hold the same surfaces and differ at most
/// in the renderer of the one surface, which they hold.
pub open spec fn changed_at(pre: Map<u32, State>, post: Map<u32, State>, key: u32) -> bool {
    &&& pre.contains_key(key)
    &&& post.dom() == pre.dom()
    &&& forall|k: u32| k != key && pre.contains_key(k) ==> #[trigger] post[k] == pre[k]
}

/// A renderer that was taken out and put back, changed or not, leaves the
/// other surfaces with their renderers.
pub proof fn lemma_put_back(pre: Map<u32, State>, key: u32, state: State)
    requires
        pre.contains_key(key),
    ensures
        changed_at(pre, pre.remove(key).insert(key, state), key),
        pre.remove(key).insert(key, state)[key] == state,
{
    assert(pre.remove(key).insert(key, state).dom() =~= pre.dom());
}

/// The form of the renderer of a surface, where it has one.
pub open spec fn form_of(renderers: Map<u32, State>, key: u32) -> Option<FormView> {
    if renderers.contains_key(key) {
        match renderers[key].iced {
            Some(iced) => match iced.program {
                Some(ui) => Some(ui.form()),
                None => None,
            },
            None => None,
        }
    } else {
        None
    }
}

/// The frame of a renderer at a tick: none where the renderer has no size
/// yet or no frame was acquired.
pub open spec fn tick_frame(state: State, now: u64, acquired: bool) -> Option<Frame> {
    if state.configured && acquired {
        Some(state.frame(now))
    } else {
        None
    }
}

impl AppData {
    /// The identities of the surfaces that have a renderer, in ascending
    /// order: the order in which the frame timer visits them.
    pub fn keys(&self) -> (r: Vec<u32>)
        ensures
            r@ == order_of(self.renderers@.dom()),
            lists(r@, self.renderers@.dom()),
    {
        self.renderers.keys()
    }

    /// The compositor gave a surface a size at `now`: its renderer takes
    /// the size and plans one frame at once, so that the lock is never
    /// shown blank or in a stale size. The caller configures the surface
    /// as returned and draws the frame. A size without width or height, or
    /// for a surface that has no renderer, changes nothing.
    pub fn configure(&mut self, key: u32, width: u32, height: u32, now: u64) -> (r: Option<
        Resized,
    >)
        requires
            old(self).wf(),
        ensures
            final(self).wf(),
            final(self).same_but_renderers(*old(self)),
            if old(self).renderers@.contains_key(key) && width > 0 && height > 0 {
                &&& r == Some(
                    Resized {
                        surface: surface_of(width, height),
                        frame: final(self).renderers@[key].frame(now),
                    },
                )
                &&& changed_at(old(self).renderers@, final(self).renderers@, key)
                &&& State::configures(
                    old(self).renderers@[key],
                    width,
                    height,
                    final(self).renderers@[key],
                )
            } else {
                r is None && final(self).renderers@ == old(self).renderers@
            },
    {
        if width == 0 || height == 0 {
            return None;
        }
        match self.renderers.take(key) {
            Some(state) => {
                let mut state = state;
                let surface = state.configure(width, height);
                let planned = state.render(now, true);
                proof {
                    lemma_put_back(old(self).renderers@, key, state);
                }
                self.renderers.insert(key, state);
                match planned {
                    Some(frame) => Some(Resized { surface, frame }),
                    None => None,
                }
            },
            None => None,
        }
    }

    /// Whether the renderer of a surface carries an overlay.
    pub fn has_overlay(&self, key: u32) -> (r: bool)
        ensures
            r == (self.renderers@.contains_key(key) && self.renderers@[key].has_overlay()),
    {
        match self.renderers.get(key) {
            Some(state) => state.iced.is_some(),
            None => false,
        }
    }

    /// Whether the renderer of a surface is ready for a frame: it exists
    /// and has a size.
    pub fn wants_frame(&self, key: u32) -> (r: bool)
        ensures
            r == (self.renderers@.contains_key(key) && self.renderers@[key].configured),
    {
        match self.renderers.get(key) {
            Some(state) => state.configured,
            None => false,
        }
    }

    /// One renderer's part of a tick of the frame timer at `now`: the frame
    /// to draw, if the renderer has a size and a frame was acquired from
    /// the surface, and the end of the session if the renderer's overlay
    /// reports a verdict in favour.
    pub fn render(&mut self, key: u32, now: u64, acquired: bool) -> (r: Option<Frame>)
        requires
            old(self).wf(),
        ensures
            final(self).wf(),
            if old(self).renderers@.contains_key(key) {
                let state = old(self).renderers@[key];
                &&& r == tick_frame(state, now, acquired)
                &&& *final(self) == (AppData {
                    exit: old(self).exit || state.authenticated(),
                    ..*old(self)
                })
            } else {
                r is None && *final(self) == *old(self)
            },
    {
        let (frame, unlocked) = match self.renderers.get(key) {
            Some(state) => {
                let frame = if state.configured {
                    state.render(now, acquired)
                } else {
                    None
                };
                (frame, state.is_authenticated())
            },
            None => (None, false),
        };
        if unlocked {
            self.exit = true;
        }
        frame
    }

    /// Applies a message of the overlay's widgets to the form of a
    /// surface's renderer. A surface without a renderer gives nothing.
    pub fn update(&mut self, key: u32, message: Message) -> (cmd: Command)
        requires
            old(self).wf(),
        ensures
            final(self).wf(),
            final(self).same_but_renderers(*old(self)),
            if old(self).renderers@.contains_key(key) {
                &&& changed_at(old(self).renderers@, final(self).renderers@, key)
                &&& State::updates(
                    old(self).renderers@[key],
                    message,
                    final(self).renderers@[key],
                    cmd,
                )
            } else {
                cmd is Nothing && final(self).renderers@ == old(self).renderers@
            },
    {
        match self.renderers.take(key) {
            Some(state) => {
                let mut state = state;
                let cmd = state.update(message);
                proof {
                    lemma_put_back(old(self).renderers@, key, state);
                }
                self.renderers.insert(key, state);
                cmd
            },
            None => Command::Nothing,
        }
    }

    /// Takes the verdict of the worker that the form of a surface's
    /// renderer asked for.
    pub fn finish_authenticate(&mut self, key: u32, ok: bool)
        requires
            old(self).wf(),
        ensures
            final(self).wf(),
            final(self).same_but_renderers(*old(self)),
            if old(self).renderers@.contains_key(key) {
                &&& changed_at(old(self).renderers@, final(self).renderers@, key)
                &&& State::finishes(
                    old(self).renderers@[key],
                    ok,
                    final(self).renderers@[key],
                )
            } else {
                final(self).renderers@ == old(self).renderers@
            },
    {
        match self.renderers.take(key) {
            Some(state) => {
                let mut state = state;
                state.finish_authenticate(ok);
                proof {
                    lemma_put_back(old(self).renderers@, key, state);
                }
                self.renderers.insert(key, state);
            },
            None => {},
        }
    }

    /// What the form of a surface's renderer displays, where it has one.
    pub fn view(&self, key: u32) -> (r: Option<FormView>)
        ensures
            r == form_of(self.renderers@, key),
    {
        match self.renderers.get(key) {
            Some(state) => match &state.iced {
                Some(iced) => match &iced.program {
                    Some(ui) => Some(ui.view()),
                    None => None,
                },
                None => None,
            },
            None => None,
        }
    }
}

/// The overlay events that a renderer is handed for a frame of pointer
/// events: each event translated, in order, or none where the renderer has
/// no overlay with a size.
pub open spec fn pointer_actions(state: State, events: Seq<PointerEventKind>) -> Seq<MouseEvent> {
    if state.iced matches Some(iced) && iced.configured() {
        Seq::new(events.len(), |k: int| mouse_event_of(events[k]))
    } else {
        Seq::empty()
    }
}

impl AppData {
    /// Whether `post` and `actions` are what a keyboard event at `now`
    /// makes of the renderers `pre`: each renderer takes the event, and
    /// `actions` holds what each hands to its form, in ascending order of
    /// the surfaces.
    pub open spec fn keyed(
        pre: Map<u32, State>,
        event: KeyboardEvent,
        now: u64,
        post: Map<u32, State>,
        actions: Seq<KeyActions>,
    ) -> bool {
        &&& post.dom() == pre.dom()
        &&& forall|k: u32|
            pre.contains_key(k) ==> #[trigger] post[k] == pre[k].after_key(event, now)
        &&& actions.len() == order_of(pre.dom()).len()
        &&& forall|i: int|
            0 <= i < actions.len() ==> #[trigger] actions[i] == pre[order_of(
                pre.dom(),
            )[i]].key_actions(event)
    }

    /// Hands a keyboard event at `now` to every renderer.
    pub fn key_event(&mut self, event: KeyboardEvent, now: u64) -> (r: Vec<KeyActions>)
        requires
            old(self).wf(),
        ensures
            final(self).wf(),
            final(self).same_but_renderers(*old(self)),
            AppData::keyed(old(self).renderers@, event, now, final(self).renderers@, r@),
    {
        let ghost pre = self.renderers@;
        let keys = self.renderers.keys();
        let mut actions: Vec<KeyActions> = Vec::new();
        let mut i: usize = 0;
        while i < keys.len()
            invariant
                i <= keys.len(),
                lists(keys@, pre.dom()),
                keys@ == order_of(pre.dom()),
                self.renderers@.dom() == pre.dom(),
                self.renderers.wf(),
                self.same_but_renderers(*old(self)),
                actions@.len() == i,
                forall|j: int|
                    0 <= j < i ==> self.renderers@[#[trigger] keys@[j]] == pre[keys@[j]].after_key(
                        event,
                        now,
                    ),
                forall|j: int|
                    i <= j < keys.len() ==> self.renderers@[#[trigger] keys@[j]] == pre[keys@[j]],
                forall|j: int|
                    0 <= j < i ==> #[trigger] actions@[j] == pre[keys@[j]].key_actions(event),
            decreases keys.len() - i,
        {
            let key = keys[i];
            let ghost before = self.renderers@;
            assert(keys@.contains(key));
            match self.renderers.take(key) {
                Some(state) => {
                    let mut state = state;
                    let handed = state.key_event(event.clone(), now);
                    proof {
                        lemma_put_back(before, key, state);
                    }
                    self.renderers.insert(key, state);
                    actions.push(handed);
                },
                None => {
                    actions.push(KeyActions { message: None, event: None });
                },
            }
            proof {
                assert forall|j: int| 0 <= j < keys.len() && j != i implies self.renderers@[keys@[j]]
                    == before[keys@[j]] by {
                    if j < i {
                        assert(keys@[j] < keys@[i as int]);
                    } else {
                        assert(keys@[i as int] < keys@[j]);
                    }
                }
            }
            i = i + 1;
        }
        proof {
            assert forall|k: u32| pre.contains_key(k) implies #[trigger] self.renderers@[k]
                == pre[k].after_key(event, now) by {
                assert(keys@.contains(k));
                let j = choose|j: int| 0 <= j < keys@.len() && keys@[j] == k;
                assert(self.renderers@[keys@[j]] == pre[keys@[j]].after_key(event, now));
            }
        }
        actions
    }

    /// A key went down at `now`. In screensaver mode that ends the
    /// session. Every renderer takes the key press, translated with the
    /// modifiers last reported.
    pub fn press_key(&mut self, event: KeyEvent, now: u64) -> (r: Vec<KeyActions>)
        requires
            old(self).wf(),
        ensures
            final(self).wf(),
            final(self).same_but_renderers(
                AppData { exit: old(self).exit || !old(self).settings.lock_mode, ..*old(self) },
            ),
            AppData::keyed(
                old(self).renderers@,
                keypress_of(event, keysym_char(event.keysym), old(self).modifiers, false),
                now,
                final(self).renderers@,
                r@,
            ),
    {
        if !self.settings.lock_mode {
            self.exit = true;
        }
        let translated = keypress_event(event, self.modifiers, false);
        self.key_event(translated, now)
    }

    /// A key came up at `now`: every renderer takes the release.
    pub fn release_key(&mut self, event: KeyEvent, now: u64) -> (r: Vec<KeyActions>)
        requires
            old(self).wf(),
        ensures
            final(self).wf(),
            final(self).same_but_renderers(*old(self)),
            AppData::keyed(
                old(self).renderers@,
                keypress_of(event, keysym_char(event.keysym), old(self).modifiers, true),
                now,
                final(self).renderers@,
                r@,
            ),
    {
        let translated = keypress_event(event, self.modifiers, true);
        self.key_event(translated, now)
    }

    /// The seat's modifiers changed: they are kept for the key events to
    /// come, and every renderer takes the change.
    pub fn update_modifiers(&mut self, modifiers: SeatModifiers, now: u64) -> (r: Vec<KeyActions>)
        requires
            old(self).wf(),
        ensures
            final(self).wf(),
            final(self).same_but_renderers(AppData { modifiers: Some(modifiers), ..*old(self) }),
            AppData::keyed(
                old(self).renderers@,
                KeyboardEvent::ModifiersChanged(modifiers_of(Some(modifiers))),
                now,
                final(self).renderers@,
                r@,
            ),
    {
        self.modifiers = Some(modifiers);
        let translated = modifiers_event(modifiers);
        self.key_event(translated, now)
    }

    /// A frame of pointer events: for every renderer, in ascending order of
    /// the surfaces, the overlay events it is handed.
    pub fn pointer_frame(&self, events: &Vec<PointerEventKind>) -> (r: Vec<Vec<MouseEvent>>)
        ensures
            r@.len() == order_of(self.renderers@.dom()).len(),
            forall|i: int|
                0 <= i < r@.len() ==> (#[trigger] r@[i])@ == pointer_actions(
                    self.renderers@[order_of(self.renderers@.dom())[i]],
                    events@,
                ),
    {
        let keys = self.renderers.keys();
        let mut all: Vec<Vec<MouseEvent>> = Vec::new();
        let mut i: usize = 0;
        while i < keys.len()
            invariant
                i <= keys.len(),
                lists(keys@, self.renderers@.dom()),
                keys@ == order_of(self.renderers@.dom()),
                all@.len() == i,
                forall|j: int|
                    0 <= j < i ==> (#[trigger] all@[j])@ == pointer_actions(
                        self.renderers@[keys@[j]],
                        events@,
                    ),
            decreases keys.len() - i,
        {
            let key = keys[i];
            assert(keys@.contains(key));
            let mut handed: Vec<MouseEvent> = Vec::new();
            match self.renderers.get(key) {
                Some(state) => {
                    let mut k: usize = 0;
                    while k < events.len()
                        invariant
                            k <= events.len(),
                            handed@ == pointer_actions(*state, events@.take(k as int)),
                        decreases events.len() - k,
                    {
                        let translated = mouse_event(events[k]);
                        match state.mouse_event(translated) {
                            Some(e) => {
                                handed.push(e);
                            },
                            None => {},
                        }
                        assert(events@.take(k + 1).len() == k + 1);
                        assert(handed@ =~= pointer_actions(*state, events@.take(k + 1)));
                        k = k + 1;
                    }
                    assert(events@.take(k as int) =~= events@);
                },
                None => {},
            }
            all.push(handed);
            i = i + 1;
        }
        all
    }
}

/// Whether a frame was acquired for the renderer at place `i` of the
/// order; none was where the list of acquisitions is too short.
pub open spec fn acquired_at(acquired: Seq<bool>, i: int) -> bool {
    0 <= i < acquired.len() && acquired[i]
}

/// Whether one of the renderers reports a verdict in favour.
pub open spec fn any_authenticated(renderers: Map<u32, State>) -> bool {
    exists|k: u32| renderers.contains_key(k) && (#[trigger] renderers[k]).authenticated()
}

/// Whether one of the first `n` renderers of an order reports a verdict in
/// favour.
pub open spec fn authenticated_among(renderers: Map<u32, State>, keys: Seq<u32>, n: int) -> bool {
    exists|j: int| 0 <= j < n && (#[trigger] renderers[keys[j]]).authenticated()
}

impl AppData {
    /// A tick of the frame timer at `now`: every renderer that has a size
    /// plans its frame, where one was acquired from its surface, and the
    /// session ends if any renderer reports a verdict in favour.
    /// `acquired` says for each renderer, in ascending order of the
    /// surfaces, whether a frame was acquired.
    pub fn tick(&mut self, now: u64, acquired: &Vec<bool>) -> (r: Vec<Option<Frame>>)
        requires
            old(self).wf(),
        ensures
            final(self).wf(),
            *final(self) == (AppData {
                exit: old(self).exit || any_authenticated(old(self).renderers@),
                ..*old(self)
            }),
            r@.len() == order_of(old(self).renderers@.dom()).len(),
            forall|i: int|
                0 <= i < r@.len() ==> #[trigger] r@[i] == tick_frame(
                    old(self).renderers@[order_of(old(self).renderers@.dom())[i]],
                    now,
                    acquired_at(acquired@, i),
                ),
    {
        let keys = self.renderers.keys();
        let mut frames: Vec<Option<Frame>> = Vec::new();
        let mut i: usize = 0;
        let mut unlocked = false;
        while i < keys.len()
            invariant
                i <= keys.len(),
                *self == *old(self),
                self.wf(),
                lists(keys@, self.renderers@.dom()),
                keys@ == order_of(self.renderers@.dom()),
                frames@.len() == i,
                unlocked == authenticated_among(self.renderers@, keys@, i as int),
                forall|j: int|
                    0 <= j < i ==> #[trigger] frames@[j] == tick_frame(
                        self.renderers@[keys@[j]],
                        now,
                        acquired_at(acquired@, j),
                    ),
            decreases keys.len() - i,
        {
            let key = keys[i];
            let got = i < acquired.len() && acquired[i];
            assert(keys@.contains(key));
            let ghost seen = authenticated_among(self.renderers@, keys@, i as int);
            match self.renderers.get(key) {
                Some(state) => {
                    let frame = if state.configured {
                        state.render(now, got)
                    } else {
                        None
                    };
                    if state.is_authenticated() {
                        unlocked = true;
                    }
                    frames.push(frame);
                },
                None => {
                    frames.push(None);
                },
            }
            proof {
                let m = self.renderers@;
                if seen {
                    let w = choose|w: int| 0 <= w < i && (#[trigger] m[keys@[w]]).authenticated();
                    assert(0 <= w < i + 1 && m[keys@[w]].authenticated());
                }
                if m[keys@[i as int]].authenticated() {
                    assert(0 <= i < i + 1 && m[keys@[i as int]].authenticated());
                }
                if authenticated_among(m, keys@, i + 1) {
                    let w = choose|w: int|
                        0 <= w < i + 1 && (#[trigger] m[keys@[w]]).authenticated();
                    if w < i {
                        assert(0 <= w < i && m[keys@[w]].authenticated());
                    }
                }
            }
            i = i + 1;
        }
        proof {
            let m = self.renderers@;
            if authenticated_among(m, keys@, i as int) {
                let w = choose|w: int| 0 <= w < i && (#[trigger] m[keys@[w]]).authenticated();
                assert(keys@.contains(keys@[w]));
                assert(m.contains_key(keys@[w]) && m[keys@[w]].authenticated());
            }
            if any_authenticated(m) {
                let k = choose|k: u32| m.contains_key(k) && (#[trigger] m[k]).authenticated();
                assert(keys@.contains(k));
                let w = choose|w: int| 0 <= w < keys@.len() && keys@[w] == k;
                assert(0 <= w < i && m[keys@[w]].authenticated());
            }
        }
        if unlocked {
            self.exit = true;
        }
        frames
    }
}

/// A verdict in favour ends the session at the next tick: once the worker
/// that the form of a renderer asked for comes back in favour, that
/// renderer reports it, and with it the renderers do.
pub proof fn law_verdict_ends_session(
    renderers: Map<u32, State>,
    key: u32,
    pre: State,
    post: State,
)
    requires
        renderers.contains_key(key),
        renderers[key] == post,
        pre.iced matches Some(iced) && iced.program matches Some(ui) && ui.auth is Running,
        State::finishes(pre, true, post),
    ensures
        post.authenticated(),
        any_authenticated(renderers),
{
    assert(renderers.contains_key(key) && renderers[key].authenticated());
}

/// No verdict, no unlock: while no renderer's form holds a verdict in
/// favour, no tick ends the session, whatever else the forms hold.
pub proof fn law_no_verdict_no_unlock(renderers: Map<u32, State>)
    requires
        forall|k: u32| renderers.contains_key(k) ==> !(#[trigger] renderers[k]).authenticated(),
    ensures
        !any_authenticated(renderers),
{
}

/// A change at one surface touches no other: every other surface keeps its
/// renderer, and the order in which the renderers are visited stays.
pub proof fn law_change_is_local(pre: Map<u32, State>, post: Map<u32, State>, key: u32, other: u32)
    requires
        changed_at(pre, post, key),
        other != key,
    ensures
        order_of(post.dom()) == order_of(pre.dom()),
        post.contains_key(other) == pre.contains_key(other),
        pre.contains_key(other) ==> post[other] == pre[other],
{
}

} // verus!
