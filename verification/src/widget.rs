//! The widget capability: per-widget bookkeeping, the three pass-specific
//! contexts, the platform input events in the toolkit's own shape, and the
//! host that wraps one widget with its state.

use vstd::prelude::*;

use crate::geometry::{BoxConstraints, Point, Size};
use crate::window::WindowHandle;

verus! {

/// A mouse event, already converted from the platform's shape.
#[derive(Clone, Copy, Debug, PartialEq, Eq, Structural)]
pub struct MouseEvent {
    pub pos: Point,
    pub button: u8,
}

/// A key event, already converted from the platform's shape.
#[derive(Clone, Copy, Debug, PartialEq, Eq, Structural)]
pub struct KeyEvent {
    pub code: u32,
}

/// Identifies a timer a widget asked for.
#[derive(Clone, Copy, Debug, PartialEq, Eq, Structural)]
pub struct TimerToken(pub u64);

/// Identifies an idle callback scheduled with the platform.
#[derive(Clone, Copy, Debug, PartialEq, Eq, Structural)]
pub struct IdleToken(pub u64);

/// The damage region a paint callback reports.  The window repaints the whole
/// root regardless; the region is carried for widgets that wish to clip.
#[derive(Clone, Copy, Debug, PartialEq, Eq, Structural)]
pub struct Region {
    pub origin: Point,
    pub size: Size,
}

/// Per-widget bookkeeping: the size and origin the layout pass assigned, and
/// whether a layout pass has happened at all.
#[derive(Clone, Copy, Debug, PartialEq, Eq, Structural)]
pub struct WidgetState {
    pub size: Size,
    pub origin: Point,
    pub layout_done: bool,
}

impl WidgetState {
    /// Bookkeeping for a widget that has not been laid out yet.
    pub fn new() -> (s: WidgetState)
        ensures
            s == WidgetState::initial(),
    {
        WidgetState {
            size: Size { width: 0, height: 0 },
            origin: Point { x: 0, y: 0 },
            layout_done: false,
        }
    }

    /// The state of a freshly created widget.
    pub open spec fn initial() -> WidgetState {
        WidgetState {
            size: Size { width: 0u64, height: 0u64 },
            origin: Point { x: 0u64, y: 0u64 },
            layout_done: false,
        }
    }
}

/// The context of an event pass: the platform handle, shared, and the root
/// state, handed to the widget for exclusive mutation and written back by the
/// window afterwards.
pub struct EventCtx<'a> {
    pub window: &'a WindowHandle,
    pub state: WidgetState,
}

/// The context of a layout pass: the root state and the platform handle, both
/// shared.
pub struct LayoutCtx<'a> {
    pub state: &'a WidgetState,
    pub window: &'a WindowHandle,
}

/// The context of a paint pass: the root state, shared, and the render
/// target, which is opaque to the core.
pub struct PaintCtx<'a, R> {
    pub state: &'a WidgetState,
    pub render: &'a R,
}

/// The widget capability: the full set of entry points a window routes
/// platform callbacks into.
///
/// A layout implementation must answer with a size the constraints admit.
pub trait Widget: Sized {
    fn init(&mut self, ctx: &mut EventCtx<'_>);

    fn mouse_down(&mut self, ctx: &mut EventCtx<'_>, event: &MouseEvent);

    fn mouse_up(&mut self, ctx: &mut EventCtx<'_>, event: &MouseEvent);

    fn mouse_move(&mut self, ctx: &mut EventCtx<'_>, event: &MouseEvent);

    fn scroll(&mut self, ctx: &mut EventCtx<'_>, event: &MouseEvent);

    /// Returns true iff the widget consumed the key press.
    fn key_down(&mut self, ctx: &mut EventCtx<'_>, event: &KeyEvent) -> bool;

    fn key_up(&mut self, ctx: &mut EventCtx<'_>, event: &KeyEvent);

    fn timer(&mut self, ctx: &mut EventCtx<'_>, token: TimerToken);

    fn layout(&mut self, ctx: &LayoutCtx<'_>, bc: BoxConstraints) -> (size: Size)
        ensures
            bc.contains(size),
    ;

    fn paint<R>(&mut self, ctx: &PaintCtx<'_, R>);
}

/// Wraps one widget with its [`WidgetState`] and keeps the bookkeeping
/// honest: layout records the returned size, `set_origin` records the origin,
/// and painting is only reachable after a layout pass.
pub struct WidgetHost<W> {
    widget: W,
    state: WidgetState,
}

impl<W> View for WidgetHost<W> {
    type V = WidgetState;

    closed spec fn view(&self) -> WidgetState {
        self.state
    }
}

impl<W: Widget> WidgetHost<W> {
    /// Hosts `widget` with fresh bookkeeping.
    pub fn new(widget: W) -> (h: WidgetHost<W>)
        ensures
            h@ == WidgetState::initial(),
    {
        WidgetHost { widget, state: WidgetState::new() }
    }

    /// The hosted widget's bookkeeping.
    pub fn state(&self) -> (s: WidgetState)
        ensures
            s == self@,
    {
        self.state
    }

    /// Routes `init` into the widget.
    pub fn init(&mut self, ctx: &mut EventCtx<'_>)
        ensures
            final(self)@ == old(self)@,
    {
        self.widget.init(ctx);
    }

    /// Routes a mouse press into the widget.
    pub fn mouse_down(&mut self, ctx: &mut EventCtx<'_>, event: &MouseEvent)
        ensures
            final(self)@ == old(self)@,
    {
        self.widget.mouse_down(ctx, event);
    }

    /// Routes a mouse release into the widget.
    pub fn mouse_up(&mut self, ctx: &mut EventCtx<'_>, event: &MouseEvent)
        ensures
            final(self)@ == old(self)@,
    {
        self.widget.mouse_up(ctx, event);
    }

    /// Routes a mouse move into the widget.
    pub fn mouse_move(&mut self, ctx: &mut EventCtx<'_>, event: &MouseEvent)
        ensures
            final(self)@ == old(self)@,
    {
        self.widget.mouse_move(ctx, event);
    }

    /// Routes a scroll into the widget.
    pub fn scroll(&mut self, ctx: &mut EventCtx<'_>, event: &MouseEvent)
        ensures
            final(self)@ == old(self)@,
    {
        self.widget.scroll(ctx, event);
    }

    /// Routes a key press into the widget; true iff the widget consumed it.
    pub fn key_down(&mut self, ctx: &mut EventCtx<'_>, event: &KeyEvent) -> (consumed: bool)
        ensures
            final(self)@ == old(self)@,
    {
        self.widget.key_down(ctx, event)
    }

    /// Routes a key release into the widget.
    pub fn key_up(&mut self, ctx: &mut EventCtx<'_>, event: &KeyEvent)
        ensures
            final(self)@ == old(self)@,
    {
        self.widget.key_up(ctx, event);
    }

    /// Routes a timer callback into the widget.
    pub fn timer(&mut self, ctx: &mut EventCtx<'_>, token: TimerToken)
        ensures
            final(self)@ == old(self)@,
    {
        self.widget.timer(ctx, token);
    }

    /// Lays the widget out under `bc` and records the size it settles on.
    pub fn layout(&mut self, ctx: &LayoutCtx<'_>, bc: BoxConstraints) -> (size: Size)
        ensures
            bc.contains(size),
            final(self)@.size == size,
            final(self)@.layout_done,
            final(self)@.origin == old(self)@.origin,
    {
        let size = self.widget.layout(ctx, bc);
        self.state.size = size;
        self.state.layout_done = true;
        size
    }

    /// Records where the widget was placed.  Valid only after a layout pass.
    pub fn set_origin(&mut self, origin: Point)
        requires
            old(self)@.layout_done,
        ensures
            final(self)@.origin == origin,
            final(self)@.size == old(self)@.size,
            final(self)@.layout_done,
    {
        self.state.origin = origin;
    }

    /// Routes a paint pass into the widget.  Painting a widget that has not
    /// been laid out is a programmer error and is ruled out here.
    pub fn paint<R>(&mut self, ctx: &PaintCtx<'_, R>)
        requires
            old(self)@.layout_done,
        ensures
            final(self)@ == old(self)@,
    {
        self.widget.paint(ctx);
    }
}

} // verus!
