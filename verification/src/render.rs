//! The renderer's decisions: the configuration of its surface, the draw
//! call of a frame, and what follows from each window event.
//!
//! A `WgpuRenderer` stands for a renderer that is ready: its graphics
//! context has been negotiated and its surface is configured. It holds no
//! graphics resources. The caller owns them, applies the actions handed
//! out here, and drops renderer and resources together when the window
//! closes.

use crate::surface::{SurfaceCaps, SurfaceConfig, SurfaceError};
use crate::vertex::{TRIANGLE_VERTICES, ZERO};
use vstd::prelude::*;

verus! {

/// Width and height of the window when it opens, in logical pixels, and of
/// the surface before the first resize, in physical pixels.
pub const WINDOW_SIZE: u32 = 512;

/// How the window's logical size is scaled to physical pixels.
#[derive(Clone, Copy, Debug, PartialEq, Eq)]
pub enum WindowScalePolicy {
    /// By the scale factor of the system.
    SystemScaleFactor,
}

/// The options that the editor window is opened with.
#[derive(Debug, PartialEq, Eq)]
pub struct WindowOpenOptions {
    pub title: String,
    /// Width and height in logical pixels.
    pub size: (u32, u32),
    pub scale: WindowScalePolicy,
}

/// A window event, as far as the renderer tells events apart.
#[derive(Clone, Copy, Debug, PartialEq, Eq)]
pub enum Event {
    /// The cursor moved inside the window. The position stays with the
    /// caller, who computes with it.
    CursorMoved,
    /// The window was resized: to `width` by `height` physical pixels,
    /// which the surface is configured for, and to `logical_width` by
    /// `logical_height` logical pixels, which cursor positions are measured
    /// against.
    Resized { width: u32, height: u32, logical_width: u32, logical_height: u32 },
    /// Any other event.
    Other,
}

/// Whether the renderer claims an event for itself.
#[derive(Clone, Copy, Debug, PartialEq, Eq)]
pub enum EventStatus {
    /// The event was handled here and goes no further.
    Captured,
    /// The event is passed back to the platform.
    Ignored,
}

/// One step that the caller carries out in answer to an event.
#[derive(Clone, Copy, Debug, PartialEq)]
pub enum Action {
    /// Open a gesture on the gain parameter at the host.
    BeginSetParameter,
    /// Map one minus the cursor's distance from the window centre through
    /// the gain parameter's preview of normalized values.
    PreviewNormalized,
    /// Set the gain parameter at the host to the normalized value just
    /// obtained.
    SetParameterNormalized,
    /// Queue the write of the cursor's normalized position into the uniform
    /// buffer.
    WriteMousePosition,
    /// Close the gesture on the gain parameter at the host.
    EndSetParameter,
    /// Configure the surface with these settings, before returning from the
    /// event.
    ConfigureSurface(SurfaceConfig),
}

/// The answer to an event: the steps to carry out, in order, and the status
/// to report.
#[derive(Debug, PartialEq)]
pub struct Reaction {
    pub actions: Vec<Action>,
    pub status: EventStatus,
}

/// The draw call of a frame: half-open ranges of vertices and of instances.
#[derive(Clone, Copy, Debug, PartialEq, Eq)]
pub struct DrawCall {
    pub first_vertex: u32,
    pub end_vertex: u32,
    pub first_instance: u32,
    pub end_instance: u32,
}

/// What a renderer holds.
pub ghost struct RendererView {
    /// What surface and adapter support, fixed at construction.
    pub surface_caps: SurfaceCaps,
    /// The current logical size of the window, which cursor positions are
    /// measured against.
    pub size: (u32, u32),
    /// The configuration that the surface has.
    pub config: SurfaceConfig,
}

impl RendererView {
    /// The configuration is the one derived from the capabilities for the
    /// size it carries.
    pub open spec fn valid(self) -> bool {
        &&& self.surface_caps.usable()
        &&& self.config == self.surface_caps.configuration_for(
            self.config.width,
            self.config.height,
        )
    }
}

/// The renderer right after construction: window and surface have the size
/// that the window opens with.
pub open spec fn initial_view(surface_caps: SurfaceCaps) -> RendererView {
    RendererView {
        surface_caps,
        size: (WINDOW_SIZE, WINDOW_SIZE),
        config: surface_caps.configuration_for(WINDOW_SIZE, WINDOW_SIZE),
    }
}

/// The steps for a cursor movement: the write to the uniform buffer and the
/// setting of the parameter both lie inside the gesture, and the value is
/// previewed before it is set.
pub open spec fn cursor_moved_actions() -> Seq<Action> {
    seq![
        Action::BeginSetParameter,
        Action::PreviewNormalized,
        Action::SetParameterNormalized,
        Action::WriteMousePosition,
        Action::EndSetParameter,
    ]
}

/// The renderer after an event: a resize sets the logical size and the
/// surface configuration, and no other event changes anything.
pub open spec fn view_after(view: RendererView, event: Event) -> RendererView {
    match event {
        Event::Resized { width, height, logical_width, logical_height } => RendererView {
            surface_caps: view.surface_caps,
            size: (logical_width, logical_height),
            config: view.surface_caps.configuration_for(width, height),
        },
        _ => view,
    }
}

/// The steps that an event asks for.
pub open spec fn actions_for(view: RendererView, event: Event) -> Seq<Action> {
    match event {
        Event::CursorMoved => cursor_moved_actions(),
        Event::Resized { width, height, logical_width, logical_height } => seq![
            Action::ConfigureSurface(view.surface_caps.configuration_for(width, height)),
        ],
        Event::Other => Seq::empty(),
    }
}

/// The draw call that shows the triangle once.
pub open spec fn triangle_draw_call() -> DrawCall {
    DrawCall { first_vertex: 0, end_vertex: TRIANGLE_VERTICES, first_instance: 0, end_instance: 1 }
}

/// What the uniform buffer holds before the first cursor movement: the
/// position `(0, 0)`, the window centre, each coordinate as the bit pattern
/// of a single-precision number.
pub open spec fn mouse_position_at_start() -> Seq<u32> {
    seq![ZERO, ZERO]
}

/// A renderer made from usable capabilities is valid, and stays valid
/// through every event: its surface configuration always is the one
/// derived for the size of the last resize, or for the opening size before
/// the first.
pub proof fn lemma_validity_is_kept(surface_caps: SurfaceCaps, view: RendererView, event: Event)
    ensures
        surface_caps.usable() ==> initial_view(surface_caps).valid(),
        view.valid() ==> view_after(view, event).valid(),
{
}

/// After a resize the surface is configured for exactly the physical size
/// of the resize, and cursor positions are measured against exactly its
/// logical size, whatever the sizes were before. The one step asked for is
/// to apply the new configuration.
pub proof fn lemma_resize_sets_sizes(
    view: RendererView,
    event: Event,
    width: u32,
    height: u32,
    logical_width: u32,
    logical_height: u32,
)
    requires
        event == (Event::Resized { width, height, logical_width, logical_height }),
    ensures
        view_after(view, event).config.width == width,
        view_after(view, event).config.height == height,
        view_after(view, event).size == (logical_width, logical_height),
        view_after(view, event).surface_caps == view.surface_caps,
        actions_for(view, event) == seq![Action::ConfigureSurface(view_after(view, event).config)],
{
}

/// Cursor positions are measured against the logical size of the latest
/// resize: a cursor movement, or any event that is no resize, leaves that
/// size as the resize set it.
pub proof fn lemma_cursor_is_measured_against_latest_resize(
    view: RendererView,
    resize: Event,
    width: u32,
    height: u32,
    logical_width: u32,
    logical_height: u32,
    later: Event,
)
    requires
        resize == (Event::Resized { width, height, logical_width, logical_height }),
        !(later is Resized),
    ensures
        view_after(view_after(view, resize), later).size == (logical_width, logical_height),
        view_after(view_after(view, resize), Event::CursorMoved).size == (
            logical_width,
            logical_height,
        ),
{
}

/// A cursor movement asks for one gesture: it opens once, the parameter is
/// set once, the uniform buffer is written once, and it closes once, in
/// this order. The steps are the same for every renderer, so they do not
/// depend on any earlier event, and the renderer itself is left as it was.
pub proof fn lemma_cursor_moved_is_one_gesture(view: RendererView, other: RendererView)
    ensures
        actions_for(view, Event::CursorMoved) == seq![
            Action::BeginSetParameter,
            Action::PreviewNormalized,
            Action::SetParameterNormalized,
            Action::WriteMousePosition,
            Action::EndSetParameter,
        ],
        actions_for(view, Event::CursorMoved) == actions_for(other, Event::CursorMoved),
        view_after(view, Event::CursorMoved) == view,
{
}

/// The format selected at construction is selected again at every resize:
/// selection from the same capabilities always gives the same format.
pub proof fn lemma_resize_keeps_format(
    surface_caps: SurfaceCaps,
    view: RendererView,
    event: Event,
)
    requires
        event is Resized,
    ensures
        view_after(initial_view(surface_caps), event).config.format == initial_view(
            surface_caps,
        ).config.format,
        view.valid() ==> view_after(view, event).config.format == view.config.format,
{
}

/// An event other than a cursor movement or a resize asks for nothing and
/// changes nothing.
pub proof fn lemma_other_events_change_nothing(view: RendererView)
    ensures
        actions_for(view, Event::Other) == Seq::<Action>::empty(),
        view_after(view, Event::Other) == view,
{
}

/// The decisions of a ready renderer.
pub struct WgpuRenderer {
    surface_caps: SurfaceCaps,
    size: (u32, u32),
    config: SurfaceConfig,
}

impl View for WgpuRenderer {
    type V = RendererView;

    closed spec fn view(&self) -> RendererView {
        RendererView { surface_caps: self.surface_caps, size: self.size, config: self.config }
    }
}

impl WgpuRenderer {
    #[verifier::type_invariant]
    spec fn inv(self) -> bool {
        self@.valid()
    }

    /// Makes the renderer for a surface with the given capabilities. Its
    /// surface configuration is the one for the size that the window opens
    /// with. Fails where the capabilities leave nothing to choose from.
    pub fn new(surface_caps: SurfaceCaps) -> (made: Result<WgpuRenderer, SurfaceError>)
        ensures
            made.is_ok() <==> surface_caps.usable(),
            made matches Ok(renderer) ==> renderer@ == initial_view(surface_caps)
                && renderer@.valid(),
            made matches Err(error) ==> surface_caps.defect() == Some(error),
    {
        match surface_caps.validate() {
            Err(e) => Err(e),
            Ok(()) => {
                let config = surface_caps.configuration(WINDOW_SIZE, WINDOW_SIZE);
                Ok(WgpuRenderer { surface_caps, size: (WINDOW_SIZE, WINDOW_SIZE), config })
            },
        }
    }

    /// The options for the window that the renderer draws into.
    pub fn start() -> (options: WindowOpenOptions)
        ensures
            options.title@ == "wgpu on baseview"@,
            options.size == (WINDOW_SIZE, WINDOW_SIZE),
            options.scale == WindowScalePolicy::SystemScaleFactor,
    {
        WindowOpenOptions {
            title: "wgpu on baseview".to_owned(),
            size: (WINDOW_SIZE, WINDOW_SIZE),
            scale: WindowScalePolicy::SystemScaleFactor,
        }
    }

    /// The draw call of a frame: every vertex of the triangle, one instance.
    pub fn on_frame(&self) -> (draw: DrawCall)
        ensures
            draw == triangle_draw_call(),
    {
        DrawCall {
            first_vertex: 0,
            end_vertex: TRIANGLE_VERTICES,
            first_instance: 0,
            end_instance: 1,
        }
    }

    /// Answers a window event. Every event is captured. A cursor movement
    /// asks for the gesture on the gain parameter, whatever the position
    /// was before. A resize takes over the new logical size, re-derives the
    /// surface configuration for the new physical size and asks for it to
    /// be applied. Nothing else changes the renderer or asks for anything.
    pub fn on_event(&mut self, event: Event) -> (reaction: Reaction)
        ensures
            reaction.status == EventStatus::Captured,
            reaction.actions@ == actions_for(old(self)@, event),
            final(self)@ == view_after(old(self)@, event),
            final(self)@.valid(),
    {
        proof {
            use_type_invariant(&*self);
        }
        let mut actions: Vec<Action> = Vec::new();
        match event {
            Event::CursorMoved => {
                actions.push(Action::BeginSetParameter);
                actions.push(Action::PreviewNormalized);
                actions.push(Action::SetParameterNormalized);
                actions.push(Action::WriteMousePosition);
                actions.push(Action::EndSetParameter);
                assert(actions@ =~= cursor_moved_actions());
            },
            Event::Resized { width, height, logical_width, logical_height } => {
                let config = self.surface_caps.configuration(width, height);
                self.size = (logical_width, logical_height);
                self.config = config;
                actions.push(Action::ConfigureSurface(config));
                assert(actions@ =~= actions_for(old(self)@, event));
            },
            Event::Other => {
                assert(actions@ =~= actions_for(old(self)@, event));
            },
        }
        Reaction { actions, status: EventStatus::Captured }
    }

    /// The capabilities that the renderer was made from.
    pub fn surface_caps(&self) -> (caps: &SurfaceCaps)
        ensures
            *caps == self@.surface_caps,
            caps.usable(),
    {
        proof {
            use_type_invariant(self);
        }
        &self.surface_caps
    }

    /// The configuration that the surface has.
    pub fn config(&self) -> (config: SurfaceConfig)
        ensures
            config == self@.config,
            config == self@.surface_caps.configuration_for(config.width, config.height),
    {
        proof {
            use_type_invariant(self);
        }
        self.config
    }

    /// Width and height that the surface is configured for, in physical
    /// pixels.
    pub fn surface_size(&self) -> (size: (u32, u32))
        ensures
            size == (self@.config.width, self@.config.height),
    {
        (self.config.width, self.config.height)
    }

    /// The current logical width and height of the window, which cursor
    /// positions are measured against: those of the latest resize, or
    /// those that the window opened with before the first.
    pub fn size(&self) -> (size: (u32, u32))
        ensures
            size == self@.size,
    {
        self.size
    }

    /// What the uniform buffer is filled with when it is made: the cursor
    /// position `(0, 0)`, each coordinate as the bit pattern of a
    /// single-precision number.
    pub fn initial_mouse_position() -> (position: [u32; 2])
        ensures
            position@ == mouse_position_at_start(),
            position[0] == 0,
            position[1] == 0,
    {
        let position = [ZERO, ZERO];
        assert(position@ =~= mouse_position_at_start());
        position
    }
}

} // verus!
