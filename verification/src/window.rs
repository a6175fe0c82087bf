//! The window core: single owner of the root widget tree and the platform
//! handle, and factory for the per-pass contexts.

use vstd::prelude::*;

use crate::geometry::{BoxConstraints, Point, Size};
use crate::widget::{EventCtx, IdleToken, KeyEvent, LayoutCtx, MouseEvent, PaintCtx, Region,
    TimerToken, Widget, WidgetHost, WidgetState};

verus! {

/// The toolkit's view of the platform window: non-owning with respect to the
/// OS window, it records the requests the core makes of the platform.  The
/// glue that talks to the real window drains them.
pub struct WindowHandle {
    needs_redraw: bool,
}

impl View for WindowHandle {
    type V = bool;

    /// True iff an invalidation request is pending.
    closed spec fn view(&self) -> bool {
        self.needs_redraw
    }
}

impl WindowHandle {
    /// A handle with no pending requests.
    pub fn new() -> (h: WindowHandle)
        ensures
            !h@,
    {
        WindowHandle { needs_redraw: false }
    }

    /// Asks the platform to repaint the window.
    pub fn invalidate(&mut self)
        ensures
            final(self)@,
    {
        self.needs_redraw = true;
    }

    /// Hands the pending invalidation request, if any, to the platform glue
    /// and clears it.
    pub fn take_invalidation(&mut self) -> (r: bool)
        ensures
            r == old(self)@,
            !final(self)@,
    {
        let r = self.needs_redraw;
        self.needs_redraw = false;
        r
    }
}

/// The model of a [`Window`]: the pending platform request, the bookkeeping
/// of the root widget and of the window itself, and where the lifecycle
/// stands.
pub struct WindowView {
    pub needs_redraw: bool,
    pub root_state: WidgetState,
    pub window_size: Size,
    pub root: WidgetState,
    pub connected: bool,
}

/// Owns the platform handle, the root widget with its state, and the current
/// window size; routes each platform callback into the widget under the
/// context shape that pass requires.
///
/// Lifecycle: created, then `window_connected` initialises the widget; after
/// that, size changes, input and the prepare-paint/paint pipeline are
/// accepted.  Painting before a `prepare_paint` has laid the root out is a
/// programmer error and is ruled out here.
pub struct Window<W> {
    handle: WindowHandle,
    root_state: WidgetState,
    window_size: Size,
    root: WidgetHost<W>,
    connected: bool,
}

impl<W> View for Window<W> {
    type V = WindowView;

    closed spec fn view(&self) -> WindowView {
        WindowView {
            needs_redraw: self.handle@,
            root_state: self.root_state,
            window_size: self.window_size,
            root: self.root@,
            connected: self.connected,
        }
    }
}

impl<W: Widget> Window<W> {
    /// A window owning `root`, not yet connected to the platform.
    pub fn new(handle: WindowHandle, root: W) -> (w: Window<W>)
        ensures
            w@.needs_redraw == handle@,
            w@.root_state == WidgetState::initial(),
            w@.window_size == (Size { width: 0u64, height: 0u64 }),
            w@.root == WidgetState::initial(),
            !w@.connected,
    {
        Window {
            handle,
            root: WidgetHost::new(root),
            window_size: Size::zero(),
            root_state: WidgetState::new(),
            connected: false,
        }
    }

    /// The platform window exists: initialises the widget inside an event
    /// context and moves the window to its live state.
    pub fn window_connected(&mut self)
        requires
            !old(self)@.connected,
        ensures
            final(self)@.connected,
            final(self)@.window_size == old(self)@.window_size,
            final(self)@.root == old(self)@.root,
            final(self)@.needs_redraw == old(self)@.needs_redraw,
    {
        let mut ctx = EventCtx { window: &self.handle, state: self.root_state };
        self.root.init(&mut ctx);
        self.root_state = ctx.state;
        self.connected = true;
    }

    /// Lays the root out under constraints tight to the window size and pins
    /// its origin to the window origin.
    pub fn prepare_paint(&mut self)
        requires
            old(self)@.connected,
        ensures
            final(self)@.root.layout_done,
            final(self)@.root.size == old(self)@.window_size,
            final(self)@.root.origin == (Point { x: 0u64, y: 0u64 }),
            final(self)@.window_size == old(self)@.window_size,
            final(self)@.root_state == old(self)@.root_state,
            final(self)@.connected,
            final(self)@.needs_redraw == old(self)@.needs_redraw,
    {
        let ctx = LayoutCtx { state: &self.root_state, window: &self.handle };
        let bc = BoxConstraints::tight(self.window_size);
        self.root.layout(&ctx, bc);
        self.root.set_origin(Point::zero());
    }

    /// Paints the root widget onto `piet`.  The damage region is accepted and
    /// the whole root is repainted.  Valid only after `prepare_paint` has run
    /// since construction.
    pub fn paint<R>(&mut self, piet: &R, _region: &Region)
        requires
            old(self)@.connected,
            old(self)@.root.layout_done,
        ensures
            final(self)@ == old(self)@,
    {
        let ctx = PaintCtx { state: &self.root_state, render: piet };
        self.root.paint(&ctx);
    }

    /// Stores the new window size and asks the platform for a repaint.
    pub fn size_changed(&mut self, new_size: Size)
        requires
            old(self)@.connected,
        ensures
            final(self)@.window_size == new_size,
            final(self)@.needs_redraw,
            final(self)@.root == old(self)@.root,
            final(self)@.root_state == old(self)@.root_state,
            final(self)@.connected,
    {
        self.window_size = new_size;
        self.handle.invalidate();
    }

    /// Routes a mouse press into the widget under an event context.
    pub fn mouse_down(&mut self, event: &MouseEvent)
        requires
            old(self)@.connected,
        ensures
            final(self)@.window_size == old(self)@.window_size,
            final(self)@.root == old(self)@.root,
            final(self)@.needs_redraw == old(self)@.needs_redraw,
            final(self)@.connected,
    {
        let mut ctx = EventCtx { window: &self.handle, state: self.root_state };
        self.root.mouse_down(&mut ctx, event);
        self.root_state = ctx.state;
    }

    /// Routes a mouse release into the widget under an event context.
    pub fn mouse_up(&mut self, event: &MouseEvent)
        requires
            old(self)@.connected,
        ensures
            final(self)@.window_size == old(self)@.window_size,
            final(self)@.root == old(self)@.root,
            final(self)@.needs_redraw == old(self)@.needs_redraw,
            final(self)@.connected,
    {
        let mut ctx = EventCtx { window: &self.handle, state: self.root_state };
        self.root.mouse_up(&mut ctx, event);
        self.root_state = ctx.state;
    }

    /// Routes a mouse move into the widget under an event context.
    pub fn mouse_move(&mut self, event: &MouseEvent)
        requires
            old(self)@.connected,
        ensures
            final(self)@.window_size == old(self)@.window_size,
            final(self)@.root == old(self)@.root,
            final(self)@.needs_redraw == old(self)@.needs_redraw,
            final(self)@.connected,
    {
        let mut ctx = EventCtx { window: &self.handle, state: self.root_state };
        self.root.mouse_move(&mut ctx, event);
        self.root_state = ctx.state;
    }

    /// Routes a scroll into the widget under an event context.
    pub fn scroll(&mut self, event: &MouseEvent)
        requires
            old(self)@.connected,
        ensures
            final(self)@.window_size == old(self)@.window_size,
            final(self)@.root == old(self)@.root,
            final(self)@.needs_redraw == old(self)@.needs_redraw,
            final(self)@.connected,
    {
        let mut ctx = EventCtx { window: &self.handle, state: self.root_state };
        self.root.scroll(&mut ctx, event);
        self.root_state = ctx.state;
    }

    /// Routes a key press into the widget; returns the widget's consumed
    /// flag.
    pub fn key_down(&mut self, event: KeyEvent) -> (consumed: bool)
        requires
            old(self)@.connected,
        ensures
            final(self)@.window_size == old(self)@.window_size,
            final(self)@.root == old(self)@.root,
            final(self)@.needs_redraw == old(self)@.needs_redraw,
            final(self)@.connected,
    {
        let mut ctx = EventCtx { window: &self.handle, state: self.root_state };
        let consumed = self.root.key_down(&mut ctx, &event);
        self.root_state = ctx.state;
        consumed
    }

    /// Routes a key release into the widget under an event context.
    pub fn key_up(&mut self, event: KeyEvent)
        requires
            old(self)@.connected,
        ensures
            final(self)@.window_size == old(self)@.window_size,
            final(self)@.root == old(self)@.root,
            final(self)@.needs_redraw == old(self)@.needs_redraw,
            final(self)@.connected,
    {
        let mut ctx = EventCtx { window: &self.handle, state: self.root_state };
        self.root.key_up(&mut ctx, &event);
        self.root_state = ctx.state;
    }

    /// Routes a timer callback into the widget under an event context.
    pub fn timer(&mut self, token: TimerToken)
        requires
            old(self)@.connected,
        ensures
            final(self)@.window_size == old(self)@.window_size,
            final(self)@.root == old(self)@.root,
            final(self)@.needs_redraw == old(self)@.needs_redraw,
            final(self)@.connected,
    {
        let mut ctx = EventCtx { window: &self.handle, state: self.root_state };
        self.root.timer(&mut ctx, token);
        self.root_state = ctx.state;
    }

    /// An idle callback is accepted and routes no work.
    pub fn idle(&mut self, _token: IdleToken)
        ensures
            *final(self) == *old(self),
    {
    }

    /// The root widget's bookkeeping, as the last layout pass left it.
    pub fn root_widget_state(&self) -> (s: WidgetState)
        ensures
            s == self@.root,
    {
        self.root.state()
    }

    /// The root state the event contexts hand to the widget.
    pub fn root_state(&self) -> (s: WidgetState)
        ensures
            s == self@.root_state,
    {
        self.root_state
    }

    /// Hands the pending invalidation request, if any, to the platform glue
    /// and clears it.
    pub fn take_invalidation(&mut self) -> (r: bool)
        ensures
            r == old(self)@.needs_redraw,
            !final(self)@.needs_redraw,
            final(self)@.window_size == old(self)@.window_size,
            final(self)@.root == old(self)@.root,
            final(self)@.root_state == old(self)@.root_state,
            final(self)@.connected == old(self)@.connected,
    {
        self.handle.take_invalidation()
    }
}

} // verus!
