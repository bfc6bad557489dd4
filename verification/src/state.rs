//! The renderer of one output: its size and clock, what it pushes to the
//! shader each frame, and the overlay it may carry.

use crate::error::{LockError, ShaderError, lock_error_of};
use crate::event::{KeyboardEvent, MouseEvent};
use crate::shader::{FRAME_VERTICES, FragmentSource, Pipeline, build, built};
use crate::ui::{Command, FrameActions, IcedState, KeyActions, Message};
use vstd::prelude::*;

verus! {

/// The width and height of a renderer that has no size yet.
pub const DEFAULT_SIZE: u32 = 256;

/// The frames that may wait for presentation.
pub const MAXIMUM_FRAME_LATENCY: u32 = 2;

/// What the frame's values are made from: the size of the surface and the
/// time, in milliseconds, at which the renderer was built.
#[derive(Debug, Clone, Copy, PartialEq, Eq, Structural)]
pub struct RenderContext {
    pub width: u32,
    pub height: u32,
    pub start: u64,
}

impl RenderContext {
    /// The context of a renderer built at `now`.
    pub fn new(now: u64) -> (ctx: RenderContext)
        ensures
            ctx.width == DEFAULT_SIZE,
            ctx.height == DEFAULT_SIZE,
            ctx.start == now,
    {
        RenderContext { width: DEFAULT_SIZE, height: DEFAULT_SIZE, start: now }
    }
}

/// The milliseconds from `start` to `now`; none where the clock reads
/// less than at the start.
pub open spec fn elapsed_between(start: u64, now: u64) -> u64 {
    if now >= start {
        (now - start) as u64
    } else {
        0
    }
}

/// The width and height of a surface, in pixels.
#[derive(Debug, Clone, Copy, PartialEq, Eq, Structural)]
pub struct Resolution {
    pub width: u32,
    pub height: u32,
}

/// The values pushed to the fragment stage each frame: the milliseconds
/// since the renderer was built, the fade amount, and the resolution.
#[derive(Debug, Clone, Copy, PartialEq, Eq, Structural)]
pub struct FrameUniforms {
    pub elapsed: u64,
    pub fade_amount: u32,
    pub resolution: Resolution,
}

/// The frame values of a context at `now`.
pub open spec fn uniforms_of(ctx: RenderContext, now: u64) -> FrameUniforms {
    FrameUniforms {
        elapsed: elapsed_between(ctx.start, now),
        fade_amount: 0,
        resolution: Resolution { width: ctx.width, height: ctx.height },
    }
}

impl FrameUniforms {
    /// The frame values of a context at `now`.
    pub fn new(ctx: &RenderContext, now: u64) -> (u: FrameUniforms)
        ensures
            u == uniforms_of(*ctx, now),
    {
        let elapsed: u64 = if now >= ctx.start {
            now - ctx.start
        } else {
            0
        };
        FrameUniforms {
            elapsed,
            fade_amount: 0,
            resolution: Resolution { width: ctx.width, height: ctx.height },
        }
    }
}

/// How a frame is presented.
#[derive(Debug, Clone, Copy, PartialEq, Eq, Structural)]
pub enum PresentMode {
    /// The newest frame replaces the one that waits.
    Mailbox,
}

/// The configuration of an output's surface.
#[derive(Debug, Clone, Copy, PartialEq, Eq, Structural)]
pub struct SurfaceConfiguration {
    pub width: u32,
    pub height: u32,
    pub desired_maximum_frame_latency: u32,
    pub present_mode: PresentMode,
}

/// The surface configuration for a size.
pub open spec fn surface_of(width: u32, height: u32) -> SurfaceConfiguration {
    SurfaceConfiguration {
        width,
        height,
        desired_maximum_frame_latency: MAXIMUM_FRAME_LATENCY,
        present_mode: PresentMode::Mailbox,
    }
}

/// A colour, eight bits for each of red, green, blue and alpha.
#[derive(Debug, Clone, Copy, PartialEq, Eq, Structural)]
pub struct Rgba {
    pub r: u8,
    pub g: u8,
    pub b: u8,
    pub a: u8,
}

/// The colour that a frame is cleared to: black.
pub open spec fn black() -> Rgba {
    Rgba { r: 0, g: 0, b: 0, a: 255 }
}

/// One frame: the colour it is cleared to, what is pushed, how many
/// vertices are drawn, and what the overlay is handed before it paints
/// over the frame.
#[derive(Debug)]
pub struct Frame {
    pub clear: Rgba,
    pub uniforms: FrameUniforms,
    pub vertices: u32,
    pub overlay: Option<FrameActions>,
}

/// The renderer of one output.
#[derive(Debug)]
pub struct State {
    pub fragment_source: FragmentSource,
    pub context: RenderContext,
    pub configured: bool,
    pub iced: Option<IcedState>,
}

impl State {
    /// A renderer that has a size has a surface of that size, and its
    /// overlay, if it carries one, has a size and a form too. A renderer
    /// without a size carries an overlay without size and form, so that it
    /// holds no verdict.
    pub open spec fn wf(self) -> bool {
        &&& self.configured ==> {
            &&& self.context.width > 0
            &&& self.context.height > 0
            &&& (self.iced matches Some(iced) ==> iced.configured())
        }
        &&& !self.configured ==> (self.iced matches Some(iced) ==> iced.program is None
            && iced.viewport is None)
    }

    /// Whether the renderer carries an overlay.
    pub open spec fn has_overlay(self) -> bool {
        self.iced is Some
    }

    /// Whether the renderer's overlay reports a verdict in favour.
    pub open spec fn authenticated(self) -> bool {
        self.iced matches Some(iced) && iced.program matches Some(ui) && ui.auth.authenticated()
    }
}

impl State {
    /// The renderer, with its pipeline, for what building it met: a device
    /// that failed is fatal, then a pipeline that could not be built. The
    /// renderer starts without a size, at the default resolution, its
    /// clock at `now`, and carries an overlay only in lock mode.
    pub open spec fn made(
        device: Result<(), String>,
        pipeline: Result<Pipeline, ShaderError>,
        lock: bool,
        username: String,
        now: u64,
    ) -> Result<(State, Pipeline), LockError> {
        match device {
            Err(words) => Err(LockError::DeviceInitFailed(words)),
            Ok(_) => match pipeline {
                Err(e) => Err(lock_error_of(e)),
                Ok(p) => Ok(
                    (
                        State {
                            fragment_source: p.fragment_source,
                            context: RenderContext {
                                width: DEFAULT_SIZE,
                                height: DEFAULT_SIZE,
                                start: now,
                            },
                            configured: false,
                            iced: if lock {
                                Some(
                                    IcedState {
                                        username,
                                        program: None,
                                        viewport: None,
                                        last_key: None,
                                    },
                                )
                            } else {
                                None
                            },
                        },
                        p,
                    ),
                ),
            },
        }
    }

    /// Builds the renderer of an output from what the device and the
    /// shader compiler answered.
    pub fn new(
        device: Result<(), String>,
        vertex: Result<Vec<u8>, String>,
        fragment: Result<Vec<u8>, String>,
        fallback: Result<Vec<u8>, String>,
        lock: bool,
        username: String,
        now: u64,
    ) -> (r: Result<(State, Pipeline), LockError>)
        ensures
            r == State::made(device, built(vertex, fragment, fallback), lock, username, now),
            r matches Ok((state, _)) ==> state.wf(),
    {
        if let Err(words) = device {
            return Err(LockError::DeviceInitFailed(words));
        }
        let pipeline = match build(vertex, fragment, fallback) {
            Ok(p) => p,
            Err(e) => {
                return Err(LockError::from_shader(e));
            },
        };
        let iced = if lock {
            Some(IcedState::new(username))
        } else {
            None
        };
        let state = State {
            fragment_source: pipeline.fragment_source,
            context: RenderContext::new(now),
            configured: false,
            iced,
        };
        Ok((state, pipeline))
    }

    /// Whether `post` is the renderer `pre` after it was given a size: its
    /// frames have that resolution, its clock runs on, and its overlay, if
    /// it carries one, has the size too.
    pub open spec fn configures(pre: State, width: u32, height: u32, post: State) -> bool {
        &&& post.configured
        &&& post.fragment_source == pre.fragment_source
        &&& post.context == RenderContext { width, height, start: pre.context.start }
        &&& match pre.iced {
            Some(before) => post.iced matches Some(after) && IcedState::configures(
                before,
                width,
                height,
                after,
            ),
            None => post.iced is None,
        }
    }

    /// Gives the renderer the size of its surface and returns the
    /// configuration for that surface.
    pub fn configure(&mut self, width: u32, height: u32) -> (r: SurfaceConfiguration)
        requires
            width > 0,
            height > 0,
        ensures
            r == surface_of(width, height),
            State::configures(*old(self), width, height, *final(self)),
            final(self).wf(),
    {
        self.context.width = width;
        self.context.height = height;
        self.configured = true;
        match &mut self.iced {
            Some(iced) => iced.configure(width, height),
            None => {},
        }
        SurfaceConfiguration {
            width,
            height,
            desired_maximum_frame_latency: MAXIMUM_FRAME_LATENCY,
            present_mode: PresentMode::Mailbox,
        }
    }

    /// The renderer after a keyboard event at `now`.
    pub open spec fn after_key(self, event: KeyboardEvent, now: u64) -> State {
        match self.iced {
            Some(iced) => State { iced: Some(iced.after_key(event, now)), ..self },
            None => self,
        }
    }

    /// What the overlay's form is handed after a keyboard event; nothing
    /// where the renderer carries no overlay.
    pub open spec fn key_actions(self, event: KeyboardEvent) -> KeyActions {
        match self.iced {
            Some(iced) => iced.key_actions(event),
            None => KeyActions { message: None, event: None },
        }
    }

    /// Hands a keyboard event at `now` to the overlay, if there is one.
    pub fn key_event(&mut self, event: KeyboardEvent, now: u64) -> (r: KeyActions)
        ensures
            r == old(self).key_actions(event),
            *final(self) == old(self).after_key(event, now),
            old(self).wf() ==> final(self).wf(),
    {
        match &mut self.iced {
            Some(iced) => iced.key_event(event, now),
            None => KeyActions { message: None, event: None },
        }
    }

    /// What the overlay's form is handed after a pointer event.
    pub open spec fn mouse_action(self, event: MouseEvent) -> Option<MouseEvent> {
        if self.iced matches Some(iced) && iced.configured() {
            Some(event)
        } else {
            None
        }
    }

    /// Hands a pointer event to the overlay, if there is one.
    pub fn mouse_event(&self, event: MouseEvent) -> (r: Option<MouseEvent>)
        ensures
            r == self.mouse_action(event),
    {
        match &self.iced {
            Some(iced) => iced.mouse_event(event),
            None => None,
        }
    }

    /// Whether the session may be unlocked: never without an overlay.
    pub fn is_authenticated(&self) -> (r: bool)
        ensures
            r == self.authenticated(),
    {
        match &self.iced {
            Some(iced) => iced.is_authenticated(),
            None => false,
        }
    }

    /// The frame at `now`.
    pub open spec fn frame(self, now: u64) -> Frame {
        Frame {
            clear: black(),
            uniforms: uniforms_of(self.context, now),
            vertices: FRAME_VERTICES,
            overlay: match self.iced {
                Some(iced) => Some(iced.frame_actions(now)),
                None => None,
            },
        }
    }

    /// Plans the frame at `now`. Where no frame could be acquired from the
    /// surface, there is none: the next tick tries again.
    pub fn render(&self, now: u64, acquired: bool) -> (r: Option<Frame>)
        requires
            self.wf(),
            self.configured,
        ensures
            r == if acquired {
                Some(self.frame(now))
            } else {
                None
            },
    {
        if !acquired {
            return None;
        }
        let uniforms = FrameUniforms::new(&self.context, now);
        let overlay = match &self.iced {
            Some(iced) => Some(iced.render(now)),
            None => None,
        };
        Some(
            Frame {
                clear: Rgba { r: 0, g: 0, b: 0, a: 255 },
                uniforms,
                vertices: FRAME_VERTICES,
                overlay,
            },
        )
    }

    /// Whether `post` and `cmd` are what a message to the form makes of the
    /// renderer `pre`.
    pub open spec fn updates(pre: State, message: Message, post: State, cmd: Command) -> bool {
        &&& post.fragment_source == pre.fragment_source
        &&& post.context == pre.context
        &&& post.configured == pre.configured
        &&& match pre.iced {
            Some(before) => post.iced matches Some(after) && IcedState::updates(
                before,
                message,
                after,
                cmd,
            ),
            None => post.iced is None && cmd is Nothing,
        }
    }

    /// Applies a message to the overlay's form.
    pub fn update(&mut self, message: Message) -> (cmd: Command)
        ensures
            State::updates(*old(self), message, *final(self), cmd),
            old(self).wf() ==> final(self).wf(),
    {
        match &mut self.iced {
            Some(iced) => iced.update(message),
            None => Command::Nothing,
        }
    }

    /// Whether `post` is the renderer `pre` after the worker's verdict.
    pub open spec fn finishes(pre: State, ok: bool, post: State) -> bool {
        &&& post.fragment_source == pre.fragment_source
        &&& post.context == pre.context
        &&& post.configured == pre.configured
        &&& match pre.iced {
            Some(before) => post.iced matches Some(after) && IcedState::finishes(before, ok, after),
            None => post.iced is None,
        }
    }

    /// Takes the verdict of the worker that the overlay's form asked for.
    pub fn finish_authenticate(&mut self, ok: bool)
        ensures
            State::finishes(*old(self), ok, *final(self)),
            old(self).wf() ==> final(self).wf(),
    {
        match &mut self.iced {
            Some(iced) => iced.finish_authenticate(ok),
            None => {},
        }
    }
}

/// A renderer that was given a size can render: it is well formed, and
/// each frame it plans has that size as its resolution, draws the six
/// vertices, and carries the overlay's part exactly where the renderer
/// carries an overlay.
pub proof fn law_frame_after_configure(pre: State, width: u32, height: u32, post: State, now: u64)
    requires
        width > 0,
        height > 0,
        State::configures(pre, width, height, post),
    ensures
        post.wf(),
        post.configured,
        post.frame(now).uniforms.resolution == (Resolution { width, height }),
        post.frame(now).uniforms.elapsed == elapsed_between(pre.context.start, now),
        post.frame(now).vertices == 6,
        post.frame(now).clear == black(),
        post.frame(now).overlay is Some <==> pre.has_overlay(),
{
}

/// The elapsed time of a renderer's frames never runs backwards: of two
/// readings of the clock, the later gives at least the elapsed time of the
/// earlier.
pub proof fn law_elapsed_monotonic(ctx: RenderContext, earlier: u64, later: u64)
    requires
        earlier <= later,
    ensures
        uniforms_of(ctx, earlier).elapsed <= uniforms_of(ctx, later).elapsed,
{
}

/// Each renderer counts from its own start: the elapsed time of a frame
/// depends on nothing but the renderer's start and the clock, whatever
/// size the renderer has.
pub proof fn law_elapsed_own_origin(a: RenderContext, b: RenderContext, now: u64)
    requires
        a.start == b.start,
    ensures
        uniforms_of(a, now).elapsed == uniforms_of(b, now).elapsed,
        now >= a.start ==> uniforms_of(a, now).elapsed == now - a.start,
{
}

/// A verdict needs a size: where the overlay of a well-formed renderer
/// holds a verdict in favour, the renderer has a size.
pub proof fn law_verdict_needs_size(state: State)
    requires
        state.wf(),
        state.authenticated(),
    ensures
        state.configured,
{
}

/// A fragment shader that does not compile costs no renderer. With a
/// device, a vertex shader and a bundled shader that are there, a renderer
/// is built whatever became of the given fragment shader; it runs the
/// bundled shader exactly when the given one failed, and once it is given
/// a size it can render, each frame in that size and on its own clock.
pub proof fn law_renderer_survives_fragment_failure(
    vertex: Vec<u8>,
    fragment: Result<Vec<u8>, String>,
    fallback: Vec<u8>,
    lock: bool,
    username: String,
    now: u64,
    width: u32,
    height: u32,
    post: State,
    at: u64,
)
    requires
        width > 0,
        height > 0,
        State::configures(
            State::made(Ok(()), built(Ok(vertex), fragment, Ok(fallback)), lock, username, now)->Ok_0.0,
            width,
            height,
            post,
        ),
    ensures
        State::made(Ok(()), built(Ok(vertex), fragment, Ok(fallback)), lock, username, now) matches Ok(
            (state, pipeline),
        ) && {
            &&& state.wf()
            &&& state.has_overlay() == lock
            &&& pipeline.fragment_source is Fallback <==> fragment is Err
            &&& state.fragment_source == pipeline.fragment_source
        },
        post.wf(),
        post.configured,
        post.frame(at).uniforms.resolution == (Resolution { width, height }),
        post.frame(at).uniforms.elapsed == elapsed_between(now, at),
        post.frame(at).overlay is Some <==> lock,
{
}

} // verus!
