//! The credential form behind the overlay: what it holds, and what each
//! message does to it.

use crate::auth::{AuthEvent, AuthState};
use crate::event::{Key, KeyboardEvent, MouseEvent, Named};
use vstd::prelude::*;

verus! {

/// What the form can be told.
#[derive(Debug, Clone)]
pub enum Message {
    /// The password field now holds this text.
    Typing(String),
    /// The password was submitted.
    Submit,
    /// The password field wants the keyboard focus.
    Focus,
    /// The password field is emptied.
    Reset,
    /// The password is shown, or hidden again.
    ToggleShow,
    /// Caps lock went on or off.
    CapsLock(bool),
}

/// What a worker is to check.
#[derive(Debug, Clone)]
pub struct Credentials {
    pub username: String,
    pub password: String,
}

/// What the caller has to do after a message.
#[derive(Debug)]
pub enum Command {
    /// Nothing.
    Nothing,
    /// Give the password field the keyboard focus.
    Focus,
    /// Start a worker that checks these credentials.
    Authenticate(Credentials),
    /// A submission was turned away because a worker is running; it is
    /// neither queued nor tried again.
    Rejected,
}

/// Which icon the show/hide button carries.
#[derive(Debug, Clone, Copy, PartialEq, Eq, Structural)]
pub enum Icon {
    Show,
    Hide,
}

/// What the form displays, apart from its layout.
#[derive(Debug)]
pub struct FormView {
    /// The text of the password field.
    pub password: String,
    /// Whether the password field hides its text.
    pub secure: bool,
    /// Whether the password field takes input and submissions.
    pub enabled: bool,
    /// The icon of the show/hide button.
    pub icon: Icon,
    /// Whether the caps lock indicator is on.
    pub caps_lock: bool,
}

/// The state of the credential form.
#[derive(Debug)]
pub struct UI {
    pub username: String,
    pub password: String,
    pub caps_lock: bool,
    pub hide_input: bool,
    pub auth: AuthState,
}

impl UI {
    /// An empty form for a user: input hidden, no check made.
    pub fn new(username: String) -> (ui: UI)
        ensures
            ui.username == username,
            ui.password@ == Seq::<char>::empty(),
            ui.hide_input,
            !ui.caps_lock,
            ui.auth == AuthState::Idle,
    {
        UI {
            username,
            password: String::new(),
            hide_input: true,
            caps_lock: false,
            auth: AuthState::new(),
        }
    }

    /// Whether a worker is checking.
    pub fn auth_running(&self) -> (r: bool)
        ensures
            r == (self.auth is Running),
    {
        self.auth.is_running()
    }

    /// Takes a submission: the credentials for a new worker, or `None`
    /// while one is running. Nothing but the state of the check changes.
    pub fn start_authenticate(&mut self) -> (r: Option<Credentials>)
        ensures
            r is Some <==> old(self).auth.accepts(),
            r matches Some(c) ==> c.username == old(self).username && c.password == old(
                self,
            ).password,
            final(self).auth == old(self).auth.after(AuthEvent::Submit),
            final(self).username == old(self).username,
            final(self).password == old(self).password,
            final(self).caps_lock == old(self).caps_lock,
            final(self).hide_input == old(self).hide_input,
    {
        if self.auth.submit() {
            Some(Credentials { username: self.username.clone(), password: self.password.clone() })
        } else {
            None
        }
    }

    /// Takes the verdict of the worker.
    pub fn finish_authenticate(&mut self, ok: bool)
        ensures
            UI::finishes(*old(self), ok, *final(self)),
    {
        self.auth.complete(ok);
    }

    /// Whether the session may be unlocked.
    pub fn is_authenticated(&self) -> (r: bool)
        ensures
            r == self.auth.authenticated(),
    {
        self.auth.is_authenticated()
    }

    /// Whether `post` and `cmd` are what a message makes of the form `pre`:
    /// typed text replaces the password, a reset empties it, a submission
    /// asks for a worker or is turned away while one is running, and the
    /// rest sets one flag.
    pub open spec fn updates(pre: UI, message: Message, post: UI, cmd: Command) -> bool {
        &&& post.username == pre.username
        &&& match message {
            Message::Typing(text) => {
                &&& cmd is Nothing
                &&& post.password == text
                &&& post.caps_lock == pre.caps_lock
                &&& post.hide_input == pre.hide_input
                &&& post.auth == pre.auth
            },
            Message::Submit => {
                &&& if pre.auth.accepts() {
                    cmd == Command::Authenticate(
                        Credentials { username: pre.username, password: pre.password },
                    )
                } else {
                    cmd is Rejected
                }
                &&& post.password == pre.password
                &&& post.caps_lock == pre.caps_lock
                &&& post.hide_input == pre.hide_input
                &&& post.auth == pre.auth.after(AuthEvent::Submit)
            },
            Message::Focus => cmd is Focus && post == pre,
            Message::Reset => {
                &&& cmd is Nothing
                &&& post.password@ == Seq::<char>::empty()
                &&& post.caps_lock == pre.caps_lock
                &&& post.hide_input == pre.hide_input
                &&& post.auth == pre.auth
            },
            Message::ToggleShow => {
                &&& cmd is Nothing
                &&& post.password == pre.password
                &&& post.caps_lock == pre.caps_lock
                &&& post.hide_input == !pre.hide_input
                &&& post.auth == pre.auth
            },
            Message::CapsLock(caps) => {
                &&& cmd is Nothing
                &&& post.password == pre.password
                &&& post.caps_lock == caps
                &&& post.hide_input == pre.hide_input
                &&& post.auth == pre.auth
            },
        }
    }

    /// Whether `post` is the form `pre` after the worker's verdict.
    pub open spec fn finishes(pre: UI, ok: bool, post: UI) -> bool {
        &&& post.auth == pre.auth.after(AuthEvent::Complete(ok))
        &&& post.username == pre.username
        &&& post.password == pre.password
        &&& post.caps_lock == pre.caps_lock
        &&& post.hide_input == pre.hide_input
    }

    /// Applies a message and says what the caller has to do.
    pub fn update(&mut self, message: Message) -> (cmd: Command)
        ensures
            UI::updates(*old(self), message, *final(self), cmd),
    {
        match message {
            Message::Typing(text) => {
                self.password = text;
                Command::Nothing
            },
            Message::Submit => match self.start_authenticate() {
                Some(credentials) => Command::Authenticate(credentials),
                None => Command::Rejected,
            },
            Message::Focus => Command::Focus,
            Message::Reset => {
                self.password = String::new();
                Command::Nothing
            },
            Message::ToggleShow => {
                self.hide_input = !self.hide_input;
                Command::Nothing
            },
            Message::CapsLock(caps) => {
                self.caps_lock = caps;
                Command::Nothing
            },
        }
    }

    /// What the form displays: the field takes input only while no worker
    /// is checking, and the button offers the opposite of what is shown.
    pub open spec fn form(self) -> FormView {
        FormView {
            password: self.password,
            secure: self.hide_input,
            enabled: !(self.auth is Running),
            icon: if self.hide_input {
                Icon::Hide
            } else {
                Icon::Show
            },
            caps_lock: self.caps_lock,
        }
    }

    /// Says what the form displays.
    pub fn view(&self) -> (v: FormView)
        ensures
            v == self.form(),
    {
        FormView {
            password: self.password.clone(),
            secure: self.hide_input,
            enabled: !self.auth_running(),
            icon: if self.hide_input {
                Icon::Hide
            } else {
                Icon::Show
            },
            caps_lock: self.caps_lock,
        }
    }
}

/// How long a key is held before it repeats, in milliseconds.
pub const HOLD_KEY_TIMEOUT: u64 = 200;

/// The key that is held down, and when it went down.
#[derive(Debug)]
pub struct LastKeyTracker {
    pub keypress: KeyboardEvent,
    pub time: u64,
}

impl LastKeyTracker {
    /// Whether the key has been held for the hold time at `now`.
    pub open spec fn due(self, now: u64) -> bool {
        now - self.time >= HOLD_KEY_TIMEOUT
    }

    /// Remembers a key press and its time.
    pub fn new(keypress: KeyboardEvent, now: u64) -> (t: LastKeyTracker)
        ensures
            t.keypress == keypress,
            t.time == now,
    {
        LastKeyTracker { keypress, time: now }
    }

    /// Whether the key press is to be delivered again at `now`.
    pub fn should_repeat(&self, now: u64) -> (r: bool)
        ensures
            r == self.due(now),
    {
        now >= self.time && now - self.time >= HOLD_KEY_TIMEOUT
    }
}

/// The message that a keyboard event sends to the form, if any: focus on
/// Tab, reset on Escape, and the state of caps lock.
pub open spec fn message_of(event: KeyboardEvent) -> Option<Message> {
    match event {
        KeyboardEvent::KeyPressed { key, .. } => if key == Key::Named(Named::Tab) {
            Some(Message::Focus)
        } else if key == Key::Named(Named::Escape) {
            Some(Message::Reset)
        } else if key == Key::Named(Named::CapsLock) {
            Some(Message::CapsLock(true))
        } else {
            None
        },
        KeyboardEvent::KeyReleased { key, .. } => if key == Key::Named(Named::CapsLock) {
            Some(Message::CapsLock(false))
        } else {
            None
        },
        KeyboardEvent::ModifiersChanged(_) => None,
    }
}

/// The held key after a keyboard event at `now`: a press that sends no
/// message becomes the held key, a release ends the hold, and anything
/// else leaves it.
pub open spec fn tracker_after(
    last_key: Option<LastKeyTracker>,
    event: KeyboardEvent,
    now: u64,
) -> Option<LastKeyTracker> {
    match event {
        KeyboardEvent::KeyPressed { .. } => if message_of(event) is None {
            Some(LastKeyTracker { keypress: event, time: now })
        } else {
            last_key
        },
        KeyboardEvent::KeyReleased { .. } => None,
        KeyboardEvent::ModifiersChanged(_) => last_key,
    }
}

/// The key press that is delivered again at `now`, if any.
pub open spec fn repeat_of(last_key: Option<LastKeyTracker>, now: u64) -> Option<KeyboardEvent> {
    match last_key {
        Some(t) => if t.due(now) {
            Some(t.keypress)
        } else {
            None
        },
        None => None,
    }
}

/// What the caller hands to the form after a keyboard event: first the
/// message, then the event itself.
#[derive(Debug)]
pub struct KeyActions {
    pub message: Option<Message>,
    pub event: Option<KeyboardEvent>,
}

/// What the caller hands to the form before it draws a frame: first the
/// message, then the repeated key press.
#[derive(Debug)]
pub struct FrameActions {
    pub message: Message,
    pub repeat: Option<KeyboardEvent>,
}

/// The overlay: the credential form once it has a size, and the key that
/// is held down.
#[derive(Debug)]
pub struct IcedState {
    pub username: String,
    pub program: Option<UI>,
    pub viewport: Option<(u32, u32)>,
    pub last_key: Option<LastKeyTracker>,
}

impl IcedState {
    /// Whether the overlay has been given a size.
    pub open spec fn configured(self) -> bool {
        self.program is Some && self.viewport is Some
    }

    /// An overlay without a size and without a form.
    pub fn new(username: String) -> (s: IcedState)
        ensures
            s.username == username,
            s.program is None,
            s.viewport is None,
            s.last_key is None,
    {
        IcedState { username, program: None, viewport: None, last_key: None }
    }

    /// The state of the credential check of the overlay's form; idle
    /// where there is no form yet.
    pub open spec fn auth(self) -> AuthState {
        match self.program {
            Some(ui) => ui.auth,
            None => AuthState::Idle,
        }
    }

    /// Whether `post` is the overlay `pre` after it was given a size: it
    /// has that size and an empty form, and holds the key it held. The
    /// credential check goes on as it was: a worker that is running stays
    /// the only one.
    pub open spec fn configures(pre: IcedState, width: u32, height: u32, post: IcedState) -> bool {
        &&& post.configured()
        &&& post.viewport == Some((width, height))
        &&& post.username == pre.username
        &&& post.last_key == pre.last_key
        &&& post.program matches Some(ui) && {
            &&& ui.username == pre.username
            &&& ui.password@ == Seq::<char>::empty()
            &&& ui.hide_input
            &&& !ui.caps_lock
            &&& ui.auth == pre.auth()
        }
    }

    /// The overlay after a keyboard event at `now`: only the held key
    /// changes, and only where the overlay has a size.
    pub open spec fn after_key(self, event: KeyboardEvent, now: u64) -> IcedState {
        if self.configured() {
            IcedState { last_key: tracker_after(self.last_key, event, now), ..self }
        } else {
            self
        }
    }

    /// What the form is handed after a keyboard event: the event's message
    /// and the event, or nothing where the overlay has no size.
    pub open spec fn key_actions(self, event: KeyboardEvent) -> KeyActions {
        if self.configured() {
            KeyActions { message: message_of(event), event: Some(event) }
        } else {
            KeyActions { message: None, event: None }
        }
    }

    /// What the form is handed before a frame at `now`: the focus, always,
    /// and the held key once it is due.
    pub open spec fn frame_actions(self, now: u64) -> FrameActions {
        FrameActions { message: Message::Focus, repeat: repeat_of(self.last_key, now) }
    }

    /// Whether `post` and `cmd` are what a message makes of the overlay
    /// `pre`: the form's answer, or nothing where there is no form.
    pub open spec fn updates(pre: IcedState, message: Message, post: IcedState, cmd: Command)
        -> bool {
        &&& post.username == pre.username
        &&& post.viewport == pre.viewport
        &&& post.last_key == pre.last_key
        &&& match pre.program {
            Some(before) => post.program matches Some(after) && UI::updates(
                before,
                message,
                after,
                cmd,
            ),
            None => post.program is None && cmd is Nothing,
        }
    }

    /// Whether `post` is the overlay `pre` after the worker's verdict.
    pub open spec fn finishes(pre: IcedState, ok: bool, post: IcedState) -> bool {
        &&& post.username == pre.username
        &&& post.viewport == pre.viewport
        &&& post.last_key == pre.last_key
        &&& match pre.program {
            Some(before) => post.program matches Some(after) && UI::finishes(before, ok, after),
            None => post.program is None,
        }
    }

    /// Whether the overlay reports a verdict in favour.
    pub open spec fn authenticated(self) -> bool {
        self.program matches Some(ui) && ui.auth.authenticated()
    }

    /// Gives the overlay a size and an empty form.
    pub fn configure(&mut self, width: u32, height: u32)
        ensures
            IcedState::configures(*old(self), width, height, *final(self)),
    {
        let auth = match &self.program {
            Some(ui) => ui.auth,
            None => AuthState::new(),
        };
        let mut ui = UI::new(self.username.clone());
        ui.auth = auth;
        self.program = Some(ui);
        self.viewport = Some((width, height));
    }

    /// Takes a keyboard event at `now`. An overlay without a size drops it.
    pub fn key_event(&mut self, event: KeyboardEvent, now: u64) -> (r: KeyActions)
        ensures
            r == old(self).key_actions(event),
            *final(self) == old(self).after_key(event, now),
    {
        if self.program.is_none() || self.viewport.is_none() {
            return KeyActions { message: None, event: None };
        }
        let message = match &event {
            KeyboardEvent::KeyPressed { key, .. } => match key {
                Key::Named(Named::Tab) => Some(Message::Focus),
                Key::Named(Named::Escape) => Some(Message::Reset),
                Key::Named(Named::CapsLock) => Some(Message::CapsLock(true)),
                _ => {
                    self.last_key = Some(LastKeyTracker::new(event.clone(), now));
                    None
                },
            },
            KeyboardEvent::KeyReleased { key, .. } => {
                self.last_key = None;
                match key {
                    Key::Named(Named::CapsLock) => Some(Message::CapsLock(false)),
                    _ => None,
                }
            },
            KeyboardEvent::ModifiersChanged(_) => None,
        };
        KeyActions { message, event: Some(event) }
    }

    /// Takes a pointer event: handed on where the overlay has a size.
    pub fn mouse_event(&self, event: MouseEvent) -> (r: Option<MouseEvent>)
        ensures
            r == if self.configured() {
                Some(event)
            } else {
                None
            },
    {
        if self.program.is_none() || self.viewport.is_none() {
            None
        } else {
            Some(event)
        }
    }

    /// Says what the form is handed before a frame at `now`.
    pub fn render(&self, now: u64) -> (r: FrameActions)
        requires
            self.configured(),
        ensures
            r == self.frame_actions(now),
    {
        let repeat = match &self.last_key {
            Some(t) => if t.should_repeat(now) {
                Some(t.keypress.clone())
            } else {
                None
            },
            None => None,
        };
        FrameActions { message: Message::Focus, repeat }
    }

    /// Whether the session may be unlocked: never before the overlay has a
    /// form.
    pub fn is_authenticated(&self) -> (r: bool)
        ensures
            r == self.authenticated(),
    {
        match &self.program {
            Some(ui) => ui.is_authenticated(),
            None => false,
        }
    }
}

impl IcedState {
    /// Applies a message to the form. An overlay without a form drops it.
    pub fn update(&mut self, message: Message) -> (cmd: Command)
        ensures
            IcedState::updates(*old(self), message, *final(self), cmd),
    {
        match &mut self.program {
            Some(ui) => ui.update(message),
            None => Command::Nothing,
        }
    }

    /// Takes the verdict of the worker that the form asked for.
    pub fn finish_authenticate(&mut self, ok: bool)
        ensures
            IcedState::finishes(*old(self), ok, *final(self)),
    {
        match &mut self.program {
            Some(ui) => ui.finish_authenticate(ok),
            None => {},
        }
    }
}

/// Key repeat: a key press that sends no message is delivered again at
/// every frame from the hold time on, and at none before.
pub proof fn law_held_key_repeats(
    last_key: Option<LastKeyTracker>,
    press: KeyboardEvent,
    pressed_at: u64,
    now: u64,
)
    requires
        press is KeyPressed,
        message_of(press) is None,
    ensures
        repeat_of(tracker_after(last_key, press, pressed_at), now) == if now - pressed_at
            >= HOLD_KEY_TIMEOUT {
            Some(press)
        } else {
            None
        },
{
}

/// Key repeat ends with the release: after any key release nothing is
/// delivered again, however long the key was held.
pub proof fn law_release_ends_repeat(
    last_key: Option<LastKeyTracker>,
    release: KeyboardEvent,
    released_at: u64,
    now: u64,
)
    requires
        release is KeyReleased,
    ensures
        repeat_of(tracker_after(last_key, release, released_at), now) is None,
{
}

/// Tab, Escape and caps lock are sent once and never held: they leave the
/// held key as it was.
pub proof fn law_message_keys_do_not_repeat(
    last_key: Option<LastKeyTracker>,
    press: KeyboardEvent,
    now: u64,
)
    requires
        press is KeyPressed,
        message_of(press) is Some,
    ensures
        tracker_after(last_key, press, now) == last_key,
{
}

/// Single flight at the overlay: a message asks for a worker only where
/// none is running, and then one is; while one is running no message asks
/// for another, and it stays running.
pub proof fn law_overlay_single_flight(
    pre: IcedState,
    message: Message,
    post: IcedState,
    cmd: Command,
)
    requires
        IcedState::updates(pre, message, post, cmd),
    ensures
        cmd is Authenticate ==> pre.auth().accepts() && post.auth() is Running,
        pre.auth() is Running ==> !(cmd is Authenticate) && post.auth() is Running,
        !(message is Submit) ==> post.auth() == pre.auth(),
{
}

/// Neither a new size nor a key touches the credential check: a worker
/// that is running stays the only one across both.
pub proof fn law_check_survives_resize_and_keys(
    pre: IcedState,
    width: u32,
    height: u32,
    post: IcedState,
    event: KeyboardEvent,
    now: u64,
)
    requires
        IcedState::configures(pre, width, height, post),
    ensures
        post.auth() == pre.auth(),
        pre.after_key(event, now).auth() == pre.auth(),
{
}

} // verus!
