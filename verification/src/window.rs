//! The state of one window and the rules that turn buffered notifications
//! into the effects an application sees.
//!
//! Nothing here touches the display: every function decides, from the
//! window's state and the answers it is given, what the state becomes and
//! which [`WindowAction`]s the caller has to carry out, in order.

use vstd::prelude::*;
use crate::dimensions::{Dimensions, DEFAULT_DPI};
use crate::pending::{PendingEvent, WindowEvent};
use crate::input::MouseEvent;

verus! {

/// The geometry of the presentation surface of an attached GPU context.
#[derive(Clone, Copy, Debug, PartialEq, Eq)]
pub struct GpuSurface {
    pub width: u32,
    pub height: u32,
}

/// A position in pixels.
#[derive(Clone, Copy, Debug, PartialEq, Eq)]
pub struct Point {
    pub x: i64,
    pub y: i64,
}

/// Where a window stands between its construction and its end.
#[derive(Clone, Copy, Debug, PartialEq, Eq)]
pub enum Lifecycle {
    /// Constructed; the compositor has not said anything yet.
    Created,
    /// Notifications are buffered, but no configure has been applied yet.
    Configuring,
    /// A configure has been applied: the window has a committed size.
    Mapped,
    /// A close request is buffered and waits for the application's consent.
    Closing,
    /// The surface has been released.
    Destroyed,
}

/// One effect that the owner of the display carries out for a window.
#[derive(Clone, Copy, Debug, PartialEq, Eq)]
pub enum WindowAction {
    /// Tell the application that the window is going away.
    Destroy,
    /// Release the GPU context that draws into the surface.
    ReleaseGpu,
    /// Release the platform window and its surface.
    ReleaseSurface,
    /// Tell the compositor that buffers are already scaled by this factor.
    SetBufferScale(i32),
    /// Resize the decorations to a content size in surface units.
    ResizeFrame(u32, u32),
    /// Record the new pixel size in the attached GPU surface's description.
    ConfigureGpuSurface(u32, u32),
    /// Tell the application the new dimensions and the full-screen state.
    Resize(Dimensions, bool),
    /// Build the presentation surface anew for the recorded size.
    RecreateSwapChain,
    /// Redraw the decorations and commit the surface.
    RefreshFrame,
    /// Acquire a frame and let the application draw into it.
    Render,
    /// Negotiate a GPU context for the window, and report how it went.
    NegotiateGpu,
    /// Tell the application that its GPU context is ready.
    Created,
    /// Ask the compositor to minimise the window.
    SetMinimized,
    /// Ask the compositor to make the window full screen.
    SetFullscreen,
    /// Ask the compositor to end full screen.
    UnsetFullscreen,
    /// Hand the new title to the window manager.
    SetTitle,
    /// Tell the application what the pointer did.
    MouseEvent(MouseEvent),
}

/// Why a window could not be brought up.
#[derive(Clone, Copy, Debug, PartialEq, Eq)]
pub enum WindowError {
    /// No GPU context could be negotiated for the window.
    GpuNegotiation,
    /// The application refused the context it was given.
    CreatedCallback,
}

/// The handle by which any thread names a window: its id, which is never
/// given to another window.
#[derive(Clone, Copy, Debug, PartialEq, Eq)]
pub struct WaylandWindow(pub usize);

/// Everything the event loop knows about one window.
#[derive(Clone, Copy, Debug, PartialEq, Eq)]
pub struct WaylandWindowInner {
    pub window_id: usize,
    pub dimensions: Dimensions,
    pub need_paint: bool,
    pub full_screen: bool,
    /// The platform window exists: it has not been closed.
    pub window_present: bool,
    /// A configure has been applied at least once.
    pub configured: bool,
    pub gpu_context: Option<GpuSurface>,
    pub last_mouse_coords: Point,
    pub mouse_buttons: u8,
    pub modifiers: u16,
    pub pending_event: PendingEvent,
}

/// A state together with the effects that led to it.
pub struct Outcome {
    pub state: WaylandWindowInner,
    pub actions: Seq<WindowAction>,
}

impl WaylandWindowInner {
    /// The window as it is right after construction.
    pub open spec fn initial(window_id: usize, width: usize, height: usize) -> WaylandWindowInner {
        WaylandWindowInner {
            window_id,
            dimensions: Dimensions { pixel_width: width, pixel_height: height, dpi: DEFAULT_DPI },
            need_paint: true,
            full_screen: false,
            window_present: true,
            configured: false,
            gpu_context: None,
            last_mouse_coords: Point { x: 0, y: 0 },
            mouse_buttons: 0,
            modifiers: 0,
            pending_event: PendingEvent::empty(),
        }
    }

    /// The state is one that the functions below can work on.
    pub open spec fn wf(self) -> bool {
        &&& self.dimensions.wf()
        &&& i32::MIN <= self.last_mouse_coords.x <= i32::MAX
        &&& i32::MIN <= self.last_mouse_coords.y <= i32::MAX
    }

    /// Where the window stands: see [`Lifecycle`].
    pub open spec fn lifecycle_of(self) -> Lifecycle {
        if !self.window_present {
            Lifecycle::Destroyed
        } else if self.pending_event.close {
            Lifecycle::Closing
        } else if self.configured {
            Lifecycle::Mapped
        } else if self.pending_event.is_empty() {
            Lifecycle::Created
        } else {
            Lifecycle::Configuring
        }
    }

    /// The effects of redrawing the decorations.
    pub open spec fn refresh_actions(self) -> Seq<WindowAction> {
        if self.window_present {
            seq![WindowAction::RefreshFrame]
        } else {
            seq![]
        }
    }

    /// The window after a paint: with a GPU context attached the content is
    /// drawn and nothing is owed any more.
    pub open spec fn painted(self) -> WaylandWindowInner {
        if self.gpu_context.is_some() {
            WaylandWindowInner { need_paint: false, ..self }
        } else {
            self
        }
    }

    /// The effects of a paint: the content is drawn only with a GPU context,
    /// the decorations whenever the window exists.
    pub open spec fn paint_actions(self) -> Seq<WindowAction> {
        if self.gpu_context.is_some() {
            seq![WindowAction::Render] + self.refresh_actions()
        } else {
            self.refresh_actions()
        }
    }

    /// The size that a drain applies: the buffered one, or, when only the
    /// scale changed, the current size expressed in surface units.
    pub open spec fn effective_configure(self, pending: PendingEvent) -> Option<(u32, u32)> {
        if pending.configure.is_none() && pending.dpi.is_some() {
            Some(
                (
                    self.dimensions.to_surface(self.dimensions.pixel_width as int) as u32,
                    self.dimensions.to_surface(self.dimensions.pixel_height as int) as u32,
                ),
            )
        } else {
            pending.configure
        }
    }

    /// The dimensions of a surface of `size` units at the committed
    /// resolution, reported at the compositor's current scale factor.
    pub open spec fn configured_dimensions(self, size: (u32, u32), scale_factor: i32) -> Dimensions {
        Dimensions {
            pixel_width: self.dimensions.to_pixels(size.0 as int) as usize,
            pixel_height: self.dimensions.to_pixels(size.1 as int) as usize,
            dpi: (scale_factor * DEFAULT_DPI) as usize,
        }
    }

    /// A configure of `size` at `scale_factor` stays within `i32`.
    pub open spec fn configure_fits(self, size: (u32, u32), scale_factor: i32) -> bool {
        &&& 1 <= scale_factor
        &&& scale_factor * DEFAULT_DPI <= i32::MAX
        &&& size.0 <= i32::MAX
        &&& size.1 <= i32::MAX
        &&& self.dimensions.to_pixels(size.0 as int) <= i32::MAX
        &&& self.dimensions.to_pixels(size.1 as int) <= i32::MAX
    }

    /// The window with new dimensions committed: the surface of an attached
    /// GPU context gets the new pixel size, and a paint is owed.
    pub open spec fn resized_to(self, dims: Dimensions) -> WaylandWindowInner {
        WaylandWindowInner {
            dimensions: dims,
            gpu_context: if self.gpu_context.is_some() {
                Some(
                    GpuSurface { width: dims.pixel_width as u32, height: dims.pixel_height as u32 },
                )
            } else {
                None
            },
            need_paint: true,
            ..self
        }
    }

    /// How new dimensions are announced: the application hears of them,
    /// and around that the presentation surface of an attached GPU context
    /// is given the new size and built anew.
    pub open spec fn resize_actions(self, dims: Dimensions) -> Seq<WindowAction> {
        if self.gpu_context.is_some() {
            seq![
                WindowAction::ConfigureGpuSurface(
                    dims.pixel_width as u32,
                    dims.pixel_height as u32,
                ),
                WindowAction::Resize(dims, self.full_screen),
                WindowAction::RecreateSwapChain,
            ]
        } else {
            seq![WindowAction::Resize(dims, self.full_screen)]
        }
    }

    /// Applying a size to a window that exists. The decorations follow the
    /// size in any case. The dimensions are computed anew, and only if they
    /// differ from the committed ones are they committed, announced and
    /// painted: a size that changes nothing reaches no callback.
    pub open spec fn configure_outcome(self, size: (u32, u32), scale_factor: i32) -> Outcome {
        let dims = self.configured_dimensions(size, scale_factor);
        let frame = seq![
            WindowAction::SetBufferScale(scale_factor),
            WindowAction::ResizeFrame(size.0, size.1),
        ];
        if dims == self.dimensions {
            Outcome { state: self, actions: frame + self.refresh_actions() }
        } else {
            let resized = self.resized_to(dims);
            Outcome {
                state: resized.painted(),
                actions: frame + self.resize_actions(dims) + resized.refresh_actions()
                    + resized.paint_actions(),
            }
        }
    }

    /// The window with everything it holds of the display let go.
    pub open spec fn torn_down(self) -> WaylandWindowInner {
        WaylandWindowInner { window_present: false, gpu_context: None, ..self }
    }

    /// What has to be released, in the reverse of the order in which it
    /// came to be: the GPU context, which draws into the surface, before the
    /// window and its surface. What is already gone is not released again.
    pub open spec fn teardown_actions(self) -> Seq<WindowAction> {
        (if self.gpu_context.is_some() {
            seq![WindowAction::ReleaseGpu]
        } else {
            seq![]
        }) + (if self.window_present {
            seq![WindowAction::ReleaseSurface]
        } else {
            seq![]
        })
    }

    /// The end of a window: the application is told, then everything is
    /// released in order.
    pub open spec fn closed_outcome(self) -> Outcome {
        Outcome {
            state: self.torn_down(),
            actions: seq![WindowAction::Destroy] + self.teardown_actions(),
        }
    }

    /// The first step of a drain: a buffered close request ends the window
    /// if the application consents.
    pub open spec fn close_outcome(self, pending: PendingEvent, can_close: bool) -> Outcome {
        if pending.close && can_close {
            self.closed_outcome()
        } else {
            Outcome { state: self, actions: seq![] }
        }
    }

    /// The second step: the latest full-screen state is taken over.
    pub open spec fn with_full_screen(self, pending: PendingEvent) -> WaylandWindowInner {
        match pending.full_screen {
            Some(full_screen) => WaylandWindowInner { full_screen, ..self },
            None => self,
        }
    }

    /// The third step: a size, buffered or synthesised, is applied if the
    /// window still exists.
    pub open spec fn size_outcome(self, pending: PendingEvent, scale_factor: i32) -> Outcome {
        match self.effective_configure(pending) {
            Some(size) if self.window_present => self.configure_outcome(size, scale_factor),
            _ => Outcome { state: self, actions: seq![] },
        }
    }

    /// The last steps: the decorations are redrawn on request, and the first
    /// configure of a window without a GPU context starts the negotiation.
    pub open spec fn finish_outcome(self, pending: PendingEvent) -> Outcome {
        let refresh = if pending.refresh_decorations {
            self.refresh_actions()
        } else {
            seq![]
        };
        if pending.had_configure_event && self.window_present {
            Outcome {
                state: WaylandWindowInner { configured: true, ..self },
                actions: if self.gpu_context.is_none() {
                    refresh + seq![WindowAction::NegotiateGpu]
                } else {
                    refresh
                },
            }
        } else {
            Outcome { state: self, actions: refresh }
        }
    }

    /// What applying `pending` does to the window, step by step.
    #[verifier::opaque]
    pub open spec fn apply_outcome(
        self,
        pending: PendingEvent,
        can_close: bool,
        scale_factor: i32,
    ) -> Outcome {
        let closed = self.close_outcome(pending, can_close);
        let sized = closed.state.with_full_screen(pending).size_outcome(pending, scale_factor);
        let finished = sized.state.finish_outcome(pending);
        Outcome {
            state: finished.state,
            actions: closed.actions + sized.actions + finished.actions,
        }
    }

    /// Applying `pending` stays within `i32`: whatever size it leads to can
    /// be scaled. A window that the drain closes applies no size.
    pub open spec fn apply_fits(self, pending: PendingEvent, can_close: bool, scale_factor: i32) -> bool {
        let closed = self.close_outcome(pending, can_close).state;
        match closed.effective_configure(pending) {
            Some(size) if closed.window_present => closed.configure_fits(size, scale_factor),
            _ => true,
        }
    }

    /// A drain of the window's own aggregator.
    pub open spec fn dispatch_outcome(self, can_close: bool, scale_factor: i32) -> Outcome {
        (WaylandWindowInner { pending_event: PendingEvent::empty(), ..self }).apply_outcome(
            self.pending_event,
            can_close,
            scale_factor,
        )
    }

    /// A drain of the window's own aggregator stays within `i32`.
    pub open spec fn dispatch_fits(self, can_close: bool, scale_factor: i32) -> bool {
        (WaylandWindowInner { pending_event: PendingEvent::empty(), ..self }).apply_fits(
            self.pending_event,
            can_close,
            scale_factor,
        )
    }
}

impl WaylandWindowInner {
    /// A window of the given pixel size that has just been created: nothing
    /// is buffered, nothing is attached, and a first paint is owed.
    pub fn new(window_id: usize, width: usize, height: usize) -> (window: WaylandWindowInner)
        ensures
            window == WaylandWindowInner::initial(window_id, width, height),
            (width <= i32::MAX && height <= i32::MAX) ==> window.wf(),
            window.lifecycle_of() == Lifecycle::Created,
    {
        WaylandWindowInner {
            window_id,
            dimensions: Dimensions::new(width, height),
            need_paint: true,
            full_screen: false,
            window_present: true,
            configured: false,
            gpu_context: None,
            last_mouse_coords: Point { x: 0, y: 0 },
            mouse_buttons: 0,
            modifiers: 0,
            pending_event: PendingEvent::new(),
        }
    }

    /// Where the window stands between its construction and its end.
    pub fn lifecycle(&self) -> (state: Lifecycle)
        ensures
            state == self.lifecycle_of(),
    {
        let pending = &self.pending_event;
        if !self.window_present {
            Lifecycle::Destroyed
        } else if pending.close {
            Lifecycle::Closing
        } else if self.configured {
            Lifecycle::Mapped
        } else if !pending.had_configure_event && !pending.refresh_decorations
            && pending.configure.is_none() && pending.dpi.is_none()
            && pending.full_screen.is_none() {
            Lifecycle::Created
        } else {
            Lifecycle::Configuring
        }
    }

    /// A close request is buffered: the next drain needs to know whether
    /// the application lets the window go.
    pub fn close_pending(&self) -> (pending: bool)
        ensures
            pending == self.pending_event.close,
    {
        self.pending_event.close
    }

    /// Buffers a notification; `true` asks the caller to schedule a drain.
    pub fn queue_event(&mut self, evt: WindowEvent) -> (changed: bool)
        ensures
            *final(self) == (WaylandWindowInner {
                pending_event: old(self).pending_event.queued(evt),
                ..*old(self)
            }),
            changed == old(self).pending_event.changed_by(evt),
    {
        self.pending_event.queue(evt)
    }

    /// Buffers a change of the surface's scale factor. The caller always
    /// schedules a drain after it.
    pub fn queue_scale(&mut self, dpi: i32)
        ensures
            *final(self) == (WaylandWindowInner {
                pending_event: PendingEvent { dpi: Some(dpi), ..old(self).pending_event },
                ..*old(self)
            }),
    {
        self.pending_event.queue_dpi(dpi);
    }

    /// How many pixels one surface unit covers.
    pub fn get_dpi_factor(&self) -> (factor: i32)
        requires
            self.wf(),
        ensures
            factor == self.dimensions.dpi_factor(),
            1 <= factor,
    {
        self.dimensions.get_dpi_factor()
    }

    /// A length in surface units, in pixels.
    pub fn surface_to_pixels(&self, surface: i32) -> (pixels: i32)
        requires
            self.wf(),
            i32::MIN <= self.dimensions.to_pixels(surface as int) <= i32::MAX,
        ensures
            pixels == self.dimensions.to_pixels(surface as int),
    {
        self.dimensions.surface_to_pixels(surface)
    }

    /// A length in pixels, in surface units, rounded up.
    pub fn pixels_to_surface(&self, pixels: i32) -> (surface: i32)
        requires
            self.wf(),
            0 <= pixels,
        ensures
            surface == self.dimensions.to_surface(pixels as int),
            0 <= surface <= pixels,
    {
        self.dimensions.pixels_to_surface(pixels)
    }

    /// Redraws the decorations of a window that still exists.
    pub fn refresh_frame(&self) -> (actions: Vec<WindowAction>)
        ensures
            actions@ == self.refresh_actions(),
    {
        let mut actions: Vec<WindowAction> = Vec::new();
        if self.window_present {
            actions.push(WindowAction::RefreshFrame);
        }
        actions
    }

    /// Paints the window: with a GPU context the application renders and
    /// the paint that was owed is settled; the decorations follow.
    pub fn do_paint(&mut self) -> (actions: Vec<WindowAction>)
        ensures
            *final(self) == old(self).painted(),
            actions@ == old(self).paint_actions(),
    {
        let mut actions: Vec<WindowAction> = Vec::new();
        if self.gpu_context.is_some() {
            actions.push(WindowAction::Render);
            self.need_paint = false;
        }
        let mut refresh = self.refresh_frame();
        actions.append(&mut refresh);
        actions
    }

    /// Whether `size` at `scale_factor` can be applied without leaving `i32`.
    pub fn configure_in_range(&self, size: (u32, u32), scale_factor: i32) -> (fits: bool)
        requires
            self.wf(),
        ensures
            fits == self.configure_fits(size, scale_factor),
    {
        let factor: i64 = self.dimensions.get_dpi_factor() as i64;
        let limit: i64 = 0x7fff_ffff;
        if scale_factor < 1 || scale_factor as i64 * 96 > limit {
            return false;
        }
        if size.0 as i64 > limit || size.1 as i64 > limit {
            return false;
        }
        assert(0 <= size.0 * factor <= 0x7fff_ffff * 0x7fff_ffff) by (nonlinear_arith)
            requires
                0 <= size.0 <= 0x7fff_ffff,
                1 <= factor <= 0x7fff_ffff,
        ;
        assert(0 <= size.1 * factor <= 0x7fff_ffff * 0x7fff_ffff) by (nonlinear_arith)
            requires
                0 <= size.1 <= 0x7fff_ffff,
                1 <= factor <= 0x7fff_ffff,
        ;
        size.0 as i64 * factor <= limit && size.1 as i64 * factor <= limit
    }

    /// The size that a drain of `pending` applies to this window.
    pub fn configure_of(&self, pending: &PendingEvent) -> (size: Option<(u32, u32)>)
        requires
            self.wf(),
        ensures
            size == self.effective_configure(*pending),
    {
        if pending.configure.is_none() && pending.dpi.is_some() {
            let width: i32 = self.dimensions.pixels_to_surface(self.dimensions.pixel_width as i32);
            let height: i32 = self.dimensions.pixels_to_surface(
                self.dimensions.pixel_height as i32,
            );
            Some((width as u32, height as u32))
        } else {
            pending.configure
        }
    }

    /// Whether a drain of `pending` can be applied: see [`Self::apply_pending`].
    pub fn can_apply(&self, pending: &PendingEvent, can_close: bool, scale_factor: i32) -> (fits:
        bool)
        requires
            self.wf(),
        ensures
            fits == self.apply_fits(*pending, can_close, scale_factor),
    {
        let present = self.window_present && !(pending.close && can_close);
        match self.configure_of(pending) {
            Some(size) => {
                if present {
                    self.configure_in_range(size, scale_factor)
                } else {
                    true
                }
            },
            None => true,
        }
    }

    /// Whether the window's own aggregator can be drained: see
    /// [`Self::dispatch_pending_event`].
    pub fn can_dispatch(&self, can_close: bool, scale_factor: i32) -> (fits: bool)
        requires
            self.wf(),
        ensures
            fits == self.dispatch_fits(can_close, scale_factor),
    {
        self.can_apply(&self.pending_event, can_close, scale_factor)
    }

    /// Applies a size to a window that exists.
    fn configure(&mut self, size: (u32, u32), scale_factor: i32) -> (actions: Vec<WindowAction>)
        requires
            old(self).wf(),
            old(self).window_present,
            old(self).configure_fits(size, scale_factor),
        ensures
            *final(self) == old(self).configure_outcome(size, scale_factor).state,
            actions@ == old(self).configure_outcome(size, scale_factor).actions,
            final(self).wf(),
    {
        let pixel_width: i32 = self.dimensions.surface_to_pixels(size.0 as i32);
        let pixel_height: i32 = self.dimensions.surface_to_pixels(size.1 as i32);
        let mut actions: Vec<WindowAction> = Vec::new();
        actions.push(WindowAction::SetBufferScale(scale_factor));
        actions.push(WindowAction::ResizeFrame(size.0, size.1));
        let new_dimensions = Dimensions {
            pixel_width: pixel_width as usize,
            pixel_height: pixel_height as usize,
            dpi: scale_factor as usize * DEFAULT_DPI,
        };
        assert(new_dimensions == old(self).configured_dimensions(size, scale_factor));
        if new_dimensions != self.dimensions {
            let full_screen = self.full_screen;
            self.dimensions = new_dimensions;
            if self.gpu_context.is_some() {
                self.gpu_context = Some(
                    GpuSurface { width: pixel_width as u32, height: pixel_height as u32 },
                );
                actions.push(
                    WindowAction::ConfigureGpuSurface(pixel_width as u32, pixel_height as u32),
                );
                actions.push(WindowAction::Resize(new_dimensions, full_screen));
                actions.push(WindowAction::RecreateSwapChain);
            } else {
                actions.push(WindowAction::Resize(new_dimensions, full_screen));
            }
            self.need_paint = true;
            let mut refresh = self.refresh_frame();
            actions.append(&mut refresh);
            let mut paint = self.do_paint();
            actions.append(&mut paint);
        } else {
            let mut refresh = self.refresh_frame();
            actions.append(&mut refresh);
        }
        assert(actions@ =~= old(self).configure_outcome(size, scale_factor).actions);
        actions
    }

    /// The first step of a drain.
    fn close_step(&mut self, pending: &PendingEvent, can_close: bool) -> (actions: Vec<WindowAction>)
        ensures
            *final(self) == old(self).close_outcome(*pending, can_close).state,
            actions@ == old(self).close_outcome(*pending, can_close).actions,
    {
        if pending.close && can_close {
            self.close()
        } else {
            Vec::new()
        }
    }

    /// The third step of a drain.
    fn size_step(&mut self, pending: &PendingEvent, scale_factor: i32) -> (actions: Vec<WindowAction>)
        requires
            old(self).wf(),
            match old(self).effective_configure(*pending) {
                Some(size) if old(self).window_present => old(self).configure_fits(
                    size,
                    scale_factor,
                ),
                _ => true,
            },
        ensures
            *final(self) == old(self).size_outcome(*pending, scale_factor).state,
            actions@ == old(self).size_outcome(*pending, scale_factor).actions,
            final(self).wf(),
    {
        match self.configure_of(pending) {
            Some(size) => {
                if self.window_present {
                    self.configure(size, scale_factor)
                } else {
                    Vec::new()
                }
            },
            None => Vec::new(),
        }
    }

    /// The last steps of a drain.
    fn finish_step(&mut self, pending: &PendingEvent) -> (actions: Vec<WindowAction>)
        ensures
            *final(self) == old(self).finish_outcome(*pending).state,
            actions@ == old(self).finish_outcome(*pending).actions,
    {
        let mut actions: Vec<WindowAction> = Vec::new();
        if pending.refresh_decorations {
            let mut refresh = self.refresh_frame();
            actions.append(&mut refresh);
        }
        if pending.had_configure_event && self.window_present {
            self.configured = true;
            if self.gpu_context.is_none() {
                actions.push(WindowAction::NegotiateGpu);
            }
        }
        actions
    }

    /// Applies what a drain found buffered.
    ///
    /// In order: a close request ends the window if `can_close` says that the
    /// application consents; the latest full-screen state is taken over; a
    /// size is applied, the buffered one or, after a change of scale alone,
    /// the current one; the decorations are redrawn if that was asked for;
    /// and the first configure of a window without a GPU context ends in
    /// [`WindowAction::NegotiateGpu`], to be answered with
    /// [`Self::enable_wgpu`].
    ///
    /// `scale_factor` is the factor the compositor currently suggests for the
    /// surface; the protocol never reports less than one.
    pub fn apply_pending(
        &mut self,
        pending: PendingEvent,
        can_close: bool,
        scale_factor: i32,
    ) -> (actions: Vec<WindowAction>)
        requires
            old(self).wf(),
            old(self).apply_fits(pending, can_close, scale_factor),
        ensures
            *final(self) == old(self).apply_outcome(pending, can_close, scale_factor).state,
            actions@ == old(self).apply_outcome(pending, can_close, scale_factor).actions,
            final(self).wf(),
    {
        proof {
            reveal(WaylandWindowInner::apply_outcome);
        }
        let mut actions = self.close_step(&pending, can_close);
        match pending.full_screen {
            Some(full_screen) => {
                self.full_screen = full_screen;
            },
            None => {},
        }
        let mut sized = self.size_step(&pending, scale_factor);
        actions.append(&mut sized);
        let mut finished = self.finish_step(&pending);
        actions.append(&mut finished);
        actions
    }

    /// Drains the window's aggregator and applies what was buffered, as
    /// [`Self::apply_pending`] does. The aggregator is empty afterwards.
    pub fn dispatch_pending_event(&mut self, can_close: bool, scale_factor: i32) -> (actions: Vec<
        WindowAction,
    >)
        requires
            old(self).wf(),
            old(self).dispatch_fits(can_close, scale_factor),
        ensures
            *final(self) == old(self).dispatch_outcome(can_close, scale_factor).state,
            actions@ == old(self).dispatch_outcome(can_close, scale_factor).actions,
            final(self).wf(),
            final(self).pending_event.is_empty(),
    {
        proof {
            lemma_drain_settles_lifecycle(*self, can_close, scale_factor);
        }
        let pending = self.pending_event.take();
        self.apply_pending(pending, can_close, scale_factor)
    }
}

/// The shapes the mouse pointer can take over a window.
#[derive(Clone, Copy, Debug, PartialEq, Eq)]
pub enum MouseCursor {
    Arrow,
    Hand,
    SizeUpDown,
    SizeLeftRight,
    Text,
}

/// The name of a cursor in the cursor theme.
pub open spec fn cursor_name(cursor: MouseCursor) -> Seq<char> {
    match cursor {
        MouseCursor::Arrow => "arrow"@,
        MouseCursor::Hand => "hand"@,
        MouseCursor::SizeUpDown => "ns-resize"@,
        MouseCursor::SizeLeftRight => "ew-resize"@,
        MouseCursor::Text => "text"@,
    }
}

impl WaylandWindowInner {
    /// The window with a GPU context attached whose surface has the
    /// window's pixel size.
    pub open spec fn with_gpu(self) -> WaylandWindowInner {
        WaylandWindowInner {
            gpu_context: Some(
                GpuSurface {
                    width: self.dimensions.pixel_width as u32,
                    height: self.dimensions.pixel_height as u32,
                },
            ),
            ..self
        }
    }

    /// The window with a paint owed, painted.
    pub open spec fn invalidated(self) -> WaylandWindowInner {
        (WaylandWindowInner { need_paint: true, ..self }).painted()
    }

    /// Takes in the result of the negotiation that
    /// [`WindowAction::NegotiateGpu`] asked for. A context that was
    /// negotiated is attached, sized like the window, and the application is
    /// to be told ([`WindowAction::Created`]); its answer goes to
    /// [`Self::gpu_created`]. A failed negotiation is an error and changes
    /// nothing.
    pub fn enable_wgpu(&mut self, negotiated: bool) -> (result: Result<
        Vec<WindowAction>,
        WindowError,
    >)
        requires
            old(self).wf(),
        ensures
            negotiated ==> result.is_ok() && result.unwrap()@ == seq![WindowAction::Created]
                && *final(self) == old(self).with_gpu(),
            !negotiated ==> result == Err::<Vec<WindowAction>, WindowError>(
                WindowError::GpuNegotiation,
            ) && *final(self) == *old(self),
            final(self).wf(),
    {
        if !negotiated {
            return Err(WindowError::GpuNegotiation);
        }
        self.gpu_context = Some(
            GpuSurface {
                width: self.dimensions.pixel_width as u32,
                height: self.dimensions.pixel_height as u32,
            },
        );
        let mut actions: Vec<WindowAction> = Vec::new();
        actions.push(WindowAction::Created);
        Ok(actions)
    }

    /// Takes in the application's answer to [`WindowAction::Created`]. If it
    /// accepted the context the window is painted at once, so that it shows
    /// at all; if it did not, the window cannot be brought up.
    pub fn gpu_created(&mut self, accepted: bool) -> (result: Result<Vec<WindowAction>, WindowError>)
        ensures
            accepted ==> result.is_ok() && result.unwrap()@ == old(self).invalidated().paint_actions()
                && *final(self) == old(self).invalidated(),
            !accepted ==> result == Err::<Vec<WindowAction>, WindowError>(
                WindowError::CreatedCallback,
            ) && *final(self) == *old(self),
            final(self).dimensions == old(self).dimensions,
    {
        if !accepted {
            return Err(WindowError::CreatedCallback);
        }
        Ok(self.invalidate())
    }

    /// Lets go of everything the window holds of the display, in order:
    /// first the GPU context, then the window and its surface. Calling it
    /// again releases nothing.
    pub fn teardown(&mut self) -> (actions: Vec<WindowAction>)
        ensures
            *final(self) == old(self).torn_down(),
            actions@ == old(self).teardown_actions(),
            final(self).teardown_actions() == Seq::<WindowAction>::empty(),
    {
        let mut actions: Vec<WindowAction> = Vec::new();
        if self.gpu_context.is_some() {
            actions.push(WindowAction::ReleaseGpu);
            self.gpu_context = None;
        }
        if self.window_present {
            actions.push(WindowAction::ReleaseSurface);
            self.window_present = false;
        }
        assert(self.teardown_actions() =~= Seq::<WindowAction>::empty());
        actions
    }

    /// Closes the window without asking: the application is told, and
    /// everything is released as in [`Self::teardown`].
    pub fn close(&mut self) -> (actions: Vec<WindowAction>)
        ensures
            *final(self) == old(self).closed_outcome().state,
            actions@ == old(self).closed_outcome().actions,
            final(self).lifecycle_of() == Lifecycle::Destroyed,
    {
        let mut actions: Vec<WindowAction> = Vec::new();
        actions.push(WindowAction::Destroy);
        let mut released = self.teardown();
        actions.append(&mut released);
        actions
    }

    /// Minimises a window that still exists.
    pub fn minimize(&mut self) -> (actions: Vec<WindowAction>)
        ensures
            *final(self) == *old(self),
            actions@ == if old(self).window_present {
                seq![WindowAction::SetMinimized]
            } else {
                seq![]
            },
    {
        let mut actions: Vec<WindowAction> = Vec::new();
        if self.window_present {
            actions.push(WindowAction::SetMinimized);
        }
        actions
    }

    /// Asks the compositor to leave full screen if the window is full
    /// screen, and to enter it if not. The state itself changes only once
    /// the compositor answers with a configure.
    pub fn toggle_fullscreen(&mut self) -> (actions: Vec<WindowAction>)
        ensures
            *final(self) == *old(self),
            actions@ == if !old(self).window_present {
                seq![]
            } else if old(self).full_screen {
                seq![WindowAction::UnsetFullscreen]
            } else {
                seq![WindowAction::SetFullscreen]
            },
    {
        let mut actions: Vec<WindowAction> = Vec::new();
        if self.window_present {
            if self.full_screen {
                actions.push(WindowAction::UnsetFullscreen);
            } else {
                actions.push(WindowAction::SetFullscreen);
            }
        }
        actions
    }

    /// Shows the window. Under a shell that waits for a first configure
    /// nothing is drawn yet; under any other the window is painted.
    pub fn show(&mut self, needs_configure: bool) -> (actions: Vec<WindowAction>)
        ensures
            (old(self).window_present && !needs_configure) ==> *final(self) == old(self).painted()
                && actions@ == old(self).paint_actions(),
            !(old(self).window_present && !needs_configure) ==> *final(self) == *old(self)
                && actions@ == Seq::<WindowAction>::empty(),
    {
        if !self.window_present || needs_configure {
            return Vec::new();
        }
        self.do_paint()
    }

    /// The name under which the cursor theme knows a cursor, or nothing if
    /// the cursor is to stay as it is.
    pub fn set_cursor(&self, cursor: Option<MouseCursor>) -> (name: Option<&'static str>)
        ensures
            cursor.is_none() <==> name.is_none(),
            cursor.is_some() ==> name.unwrap()@ == cursor_name(cursor.unwrap()),
    {
        match cursor {
            Some(MouseCursor::Arrow) => Some("arrow"),
            Some(MouseCursor::Hand) => Some("hand"),
            Some(MouseCursor::SizeUpDown) => Some("ns-resize"),
            Some(MouseCursor::SizeLeftRight) => Some("ew-resize"),
            Some(MouseCursor::Text) => Some("text"),
            None => None,
        }
    }

    /// Marks the content as stale and paints it.
    pub fn invalidate(&mut self) -> (actions: Vec<WindowAction>)
        ensures
            *final(self) == old(self).invalidated(),
            actions@ == old(self).invalidated().paint_actions(),
    {
        self.need_paint = true;
        self.do_paint()
    }

    /// The surface size that holds `width` by `height` pixels.
    pub open spec fn surface_size_of(self, width: usize, height: usize) -> (u32, u32) {
        (
            self.dimensions.to_surface(width as int) as u32,
            self.dimensions.to_surface(height as int) as u32,
        )
    }

    /// The window with a configure for `width` by `height` pixels buffered.
    pub open spec fn with_inner_size(self, width: usize, height: usize) -> WaylandWindowInner {
        WaylandWindowInner {
            pending_event: PendingEvent {
                configure: Some(self.surface_size_of(width, height)),
                ..self.pending_event
            },
            ..self
        }
    }

    /// Gives the content a new size in pixels. The compositor sends no
    /// configure for a size the client picks, so one is buffered here and
    /// drained at once, as in [`Self::dispatch_pending_event`]; then the
    /// decorations of a window that still exists are resized and redrawn.
    pub fn set_inner_size(
        &mut self,
        width: usize,
        height: usize,
        can_close: bool,
        scale_factor: i32,
    ) -> (actions: Vec<WindowAction>)
        requires
            old(self).wf(),
            width <= i32::MAX,
            height <= i32::MAX,
            old(self).with_inner_size(width, height).dispatch_fits(can_close, scale_factor),
        ensures
            ({
                let drained = old(self).with_inner_size(width, height).dispatch_outcome(
                    can_close,
                    scale_factor,
                );
                let size = old(self).surface_size_of(width, height);
                &&& *final(self) == drained.state
                &&& actions@ == drained.actions + if drained.state.window_present {
                    seq![WindowAction::ResizeFrame(size.0, size.1), WindowAction::RefreshFrame]
                } else {
                    seq![]
                }
            }),
            final(self).wf(),
    {
        let surface_width: u32 = self.dimensions.pixels_to_surface(width as i32) as u32;
        let surface_height: u32 = self.dimensions.pixels_to_surface(height as i32) as u32;
        self.pending_event.configure = Some((surface_width, surface_height));
        assert(*self == old(self).with_inner_size(width, height));
        let mut actions = self.dispatch_pending_event(can_close, scale_factor);
        if self.window_present {
            actions.push(WindowAction::ResizeFrame(surface_width, surface_height));
            actions.push(WindowAction::RefreshFrame);
        }
        actions
    }

    /// Whether [`Self::set_inner_size`] can be called with these arguments.
    pub fn can_set_inner_size(
        &self,
        width: usize,
        height: usize,
        can_close: bool,
        scale_factor: i32,
    ) -> (fits: bool)
        requires
            self.wf(),
        ensures
            fits == (width <= i32::MAX && height <= i32::MAX && self.with_inner_size(
                width,
                height,
            ).dispatch_fits(can_close, scale_factor)),
    {
        if width > 0x7fff_ffff || height > 0x7fff_ffff {
            return false;
        }
        let mut sized = *self;
        let surface_width: u32 = self.dimensions.pixels_to_surface(width as i32) as u32;
        let surface_height: u32 = self.dimensions.pixels_to_surface(height as i32) as u32;
        sized.pending_event.configure = Some((surface_width, surface_height));
        sized.can_dispatch(can_close, scale_factor)
    }

    /// A Wayland client cannot place its windows: nothing happens.
    pub fn set_window_position(&self, coords: Point) -> (actions: Vec<WindowAction>)
        ensures
            actions@ == Seq::<WindowAction>::empty(),
    {
        Vec::new()
    }

    /// Changes the title: a window that still exists hands it to the window
    /// manager and redraws its decorations.
    pub fn set_title(&mut self) -> (actions: Vec<WindowAction>)
        ensures
            *final(self) == *old(self),
            actions@ == if old(self).window_present {
                seq![WindowAction::SetTitle, WindowAction::RefreshFrame]
            } else {
                seq![]
            },
    {
        let mut actions: Vec<WindowAction> = Vec::new();
        if self.window_present {
            actions.push(WindowAction::SetTitle);
            actions.push(WindowAction::RefreshFrame);
        }
        actions
    }
}

/// What to do with the outcome of acquiring a frame to draw into.
#[derive(Clone, Copy, Debug, PartialEq, Eq)]
pub enum FrameStep {
    /// A frame is there: let the application render.
    Render,
    /// The surface was lost: build the presentation surface anew and try
    /// once more.
    RecreateAndRetry,
    /// The surface was lost again: give up.
    Fatal,
}

/// Decides how a paint goes on after an attempt to acquire a frame. A
/// failure is answered by building the presentation surface anew, once; a
/// failure right after that is final.
pub fn frame_step(acquired: bool, retried: bool) -> (step: FrameStep)
    ensures
        step == if acquired {
            FrameStep::Render
        } else if retried {
            FrameStep::Fatal
        } else {
            FrameStep::RecreateAndRetry
        },
{
    if acquired {
        FrameStep::Render
    } else if retried {
        FrameStep::Fatal
    } else {
        FrameStep::RecreateAndRetry
    }
}

/// None of `actions` tells the application of a new size or touches the
/// presentation surface's geometry.
pub open spec fn no_resize(actions: Seq<WindowAction>) -> bool {
    forall|i: int|
        0 <= i < actions.len() ==> !(#[trigger] actions[i] is Resize) && !(actions[i]
            is ConfigureGpuSurface) && !(actions[i] is RecreateSwapChain)
}

/// How many of `actions` satisfy `wanted`.
pub open spec fn count_of(actions: Seq<WindowAction>, wanted: spec_fn(WindowAction) -> bool) -> nat
    decreases actions.len(),
{
    if actions.len() == 0 {
        0
    } else {
        count_of(actions.drop_last(), wanted) + if wanted(actions.last()) {
            1nat
        } else {
            0nat
        }
    }
}

/// A drain that finds nothing buffered changes nothing and asks for
/// nothing.
pub proof fn lemma_empty_drain_is_idle(window: WaylandWindowInner, can_close: bool, scale_factor: i32)
    ensures
        window.apply_outcome(PendingEvent::empty(), can_close, scale_factor).state == window,
        window.apply_outcome(PendingEvent::empty(), can_close, scale_factor).actions
            == Seq::<WindowAction>::empty(),
        window.apply_fits(PendingEvent::empty(), can_close, scale_factor),
{
    reveal(WaylandWindowInner::apply_outcome);
}

/// A close request that the application refuses changes nothing about the
/// window's existence: it is not destroyed, its surface is not released, and
/// after the drain a window that had a committed size is mapped as before.
pub proof fn lemma_close_denied_keeps_window(
    window: WaylandWindowInner,
    pending: PendingEvent,
    scale_factor: i32,
)
    requires
        pending.close,
    ensures
        ({
            let outcome = window.apply_outcome(pending, false, scale_factor);
            &&& outcome.state.window_present == window.window_present
            &&& outcome.state.gpu_context.is_some() == window.gpu_context.is_some()
            &&& forall|i: int|
                0 <= i < outcome.actions.len() ==> #[trigger] outcome.actions[i]
                    != WindowAction::Destroy && outcome.actions[i] != WindowAction::ReleaseGpu
                    && outcome.actions[i] != WindowAction::ReleaseSurface
            &&& (window.window_present && window.configured && !window.pending_event.close)
                ==> outcome.state.lifecycle_of() == Lifecycle::Mapped
        }),
{
    reveal(WaylandWindowInner::apply_outcome);
}

/// A close request that the application consents to ends the window: the
/// application is told first, then everything is released in order, and
/// nothing else happens to a window that is gone.
pub proof fn lemma_close_granted_destroys(
    window: WaylandWindowInner,
    pending: PendingEvent,
    scale_factor: i32,
)
    requires
        pending.close,
    ensures
        ({
            let outcome = window.apply_outcome(pending, true, scale_factor);
            &&& outcome.state.lifecycle_of() == Lifecycle::Destroyed
            &&& outcome.actions == seq![WindowAction::Destroy] + window.teardown_actions()
            &&& outcome.actions[0] == WindowAction::Destroy
            &&& outcome.state.teardown_actions() == Seq::<WindowAction>::empty()
            &&& outcome.state.dimensions == window.dimensions
        }),
{
    reveal(WaylandWindowInner::apply_outcome);
    let outcome = window.apply_outcome(pending, true, scale_factor);
    assert(outcome.actions =~= seq![WindowAction::Destroy] + window.teardown_actions());
    assert(outcome.state.teardown_actions() =~= Seq::<WindowAction>::empty());
}

/// A size that leads to the dimensions already committed changes nothing
/// and reaches no callback: the decorations follow it, and that is all. A
/// size that leads to other dimensions is announced once, with exactly
/// those, and the window is painted.
pub proof fn lemma_resize_only_on_change(
    window: WaylandWindowInner,
    size: (u32, u32),
    scale_factor: i32,
)
    requires
        window.window_present,
    ensures
        ({
            let outcome = window.configure_outcome(size, scale_factor);
            let dims = window.configured_dimensions(size, scale_factor);
            &&& outcome.state.dimensions == dims
            &&& dims == window.dimensions ==> {
                &&& outcome.state == window
                &&& outcome.actions == seq![
                    WindowAction::SetBufferScale(scale_factor),
                    WindowAction::ResizeFrame(size.0, size.1),
                    WindowAction::RefreshFrame,
                ]
                &&& no_resize(outcome.actions)
            }
            &&& dims != window.dimensions ==> {
                &&& count_of(outcome.actions, |a: WindowAction| a is Resize) == 1
                &&& outcome.actions.contains(WindowAction::Resize(dims, window.full_screen))
                &&& window.gpu_context.is_some() ==> outcome.actions.contains(
                    WindowAction::Render,
                ) && !outcome.state.need_paint
            }
        }),
{
    let outcome = window.configure_outcome(size, scale_factor);
    let dims = window.configured_dimensions(size, scale_factor);
    let wanted = |a: WindowAction| a is Resize;
    if dims != window.dimensions {
        let resize = WindowAction::Resize(dims, window.full_screen);
        if window.gpu_context.is_some() {
            assert(outcome.actions[3] == resize);
            assert(outcome.actions[6] == WindowAction::Render);
        } else {
            assert(outcome.actions[2] == resize);
        }
        lemma_count_of_listed(outcome.actions, wanted);
    } else {
        assert(outcome.actions =~= seq![
            WindowAction::SetBufferScale(scale_factor),
            WindowAction::ResizeFrame(size.0, size.1),
            WindowAction::RefreshFrame,
        ]);
    }
}

/// Counting over a sequence of known length counts each of its items.
proof fn lemma_count_of_listed(actions: Seq<WindowAction>, wanted: spec_fn(WindowAction) -> bool)
    requires
        actions.len() <= 8,
    ensures
        count_of(actions, wanted) == (if actions.len() > 0 && wanted(actions[0]) {
            1nat
        } else {
            0nat
        }) + (if actions.len() > 1 && wanted(actions[1]) {
            1nat
        } else {
            0nat
        }) + (if actions.len() > 2 && wanted(actions[2]) {
            1nat
        } else {
            0nat
        }) + (if actions.len() > 3 && wanted(actions[3]) {
            1nat
        } else {
            0nat
        }) + (if actions.len() > 4 && wanted(actions[4]) {
            1nat
        } else {
            0nat
        }) + (if actions.len() > 5 && wanted(actions[5]) {
            1nat
        } else {
            0nat
        }) + (if actions.len() > 6 && wanted(actions[6]) {
            1nat
        } else {
            0nat
        }) + (if actions.len() > 7 && wanted(actions[7]) {
            1nat
        } else {
            0nat
        }),
    decreases actions.len(),
{
    if actions.len() > 0 {
        let front = actions.drop_last();
        lemma_count_of_listed(front, wanted);
        assert(forall|i: int| 0 <= i < front.len() ==> front[i] == actions[i]);
    }
}

/// A drain asks for a GPU context exactly when it has seen a configure for
/// a window that still exists and has no context; once a context is
/// attached no drain asks again.
pub proof fn lemma_negotiation_only_without_context(
    window: WaylandWindowInner,
    pending: PendingEvent,
    can_close: bool,
    scale_factor: i32,
)
    ensures
        ({
            let outcome = window.apply_outcome(pending, can_close, scale_factor);
            let asked = outcome.actions.contains(WindowAction::NegotiateGpu);
            &&& asked == (pending.had_configure_event && outcome.state.window_present
                && window.gpu_context.is_none())
            &&& asked ==> outcome.actions.last() == WindowAction::NegotiateGpu
            &&& window.gpu_context.is_some() ==> !asked
        }),
{
    reveal(WaylandWindowInner::apply_outcome);
    let closed = window.close_outcome(pending, can_close);
    let sized = closed.state.with_full_screen(pending).size_outcome(pending, scale_factor);
    let finished = sized.state.finish_outcome(pending);
    let outcome = window.apply_outcome(pending, can_close, scale_factor);
    let want = WindowAction::NegotiateGpu;
    assert(forall|i: int| 0 <= i < closed.actions.len() ==> closed.actions[i] != want);
    assert(forall|i: int| 0 <= i < sized.actions.len() ==> sized.actions[i] != want);
    if pending.had_configure_event && outcome.state.window_present
        && window.gpu_context.is_none() {
        assert(finished.actions.last() == want);
        assert(outcome.actions[outcome.actions.len() - 1] == want);
    } else {
        assert(forall|i: int| 0 <= i < finished.actions.len() ==> finished.actions[i] != want);
        if outcome.actions.contains(want) {
            let i = choose|i: int| 0 <= i < outcome.actions.len() && outcome.actions[i] == want;
            if i < closed.actions.len() {
                assert(closed.actions[i] == want);
            } else if i < closed.actions.len() + sized.actions.len() {
                assert(sized.actions[i - closed.actions.len()] == want);
            } else {
                assert(finished.actions[i - closed.actions.len() - sized.actions.len()] == want);
            }
        }
    }
}

/// After a drain the window stands where its lifecycle says: a window that
/// was closed is destroyed; one that exists and has seen a configure, now or
/// before, is mapped; and nothing is buffered any more.
pub proof fn lemma_drain_settles_lifecycle(
    window: WaylandWindowInner,
    can_close: bool,
    scale_factor: i32,
)
    ensures
        ({
            let after = window.dispatch_outcome(can_close, scale_factor).state;
            let closed = window.pending_event.close && can_close;
            &&& after.pending_event.is_empty()
            &&& after.lifecycle_of() == if !window.window_present || closed {
                Lifecycle::Destroyed
            } else if window.configured || window.pending_event.had_configure_event {
                Lifecycle::Mapped
            } else {
                Lifecycle::Created
            }
        }),
{
    reveal(WaylandWindowInner::apply_outcome);
}

} // verus!
