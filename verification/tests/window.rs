use druidinho::geometry::{BoxConstraints, Point, Size};
use druidinho::widget::{EventCtx, KeyEvent, LayoutCtx, MouseEvent, PaintCtx, Region, TimerToken,
    IdleToken, Widget, WidgetHost, WidgetState};
use druidinho::window::{Window, WindowHandle};

/// A widget that accepts whatever constraints it is given and records the
/// callbacks it saw in the root state.
struct Recorder;

impl Widget for Recorder {
    fn init(&mut self, ctx: &mut EventCtx<'_>) {
        ctx.state.origin = Point { x: 1, y: 2 };
    }

    fn mouse_down(&mut self, ctx: &mut EventCtx<'_>, event: &MouseEvent) {
        ctx.state.origin = event.pos;
    }

    fn mouse_up(&mut self, _ctx: &mut EventCtx<'_>, _event: &MouseEvent) {}

    fn mouse_move(&mut self, ctx: &mut EventCtx<'_>, event: &MouseEvent) {
        ctx.state.origin = event.pos;
    }

    fn scroll(&mut self, _ctx: &mut EventCtx<'_>, _event: &MouseEvent) {}

    fn key_down(&mut self, ctx: &mut EventCtx<'_>, event: &KeyEvent) -> bool {
        ctx.state.size.width = event.code as u64;
        event.code % 2 == 0
    }

    fn key_up(&mut self, _ctx: &mut EventCtx<'_>, _event: &KeyEvent) {}

    fn timer(&mut self, ctx: &mut EventCtx<'_>, token: TimerToken) {
        ctx.state.size.height = token.0;
    }

    fn layout(&mut self, _ctx: &LayoutCtx<'_>, bc: BoxConstraints) -> Size {
        bc.max
    }

    fn paint<R>(&mut self, _ctx: &PaintCtx<'_, R>) {}
}

fn live_window() -> Window<Recorder> {
    let mut w = Window::new(WindowHandle::new(), Recorder);
    w.window_connected();
    w
}

#[test]
fn connect_size_layout_paint_pipeline() {
    let mut w = Window::new(WindowHandle::new(), Recorder);
    assert!(!w.root_widget_state().layout_done);
    w.window_connected();
    w.size_changed(Size::new(800, 600));
    assert!(w.take_invalidation());
    assert!(!w.take_invalidation());
    w.prepare_paint();
    let st = w.root_widget_state();
    assert_eq!(st.origin, Point { x: 0, y: 0 });
    assert_eq!(st.size, Size { width: 800, height: 600 });
    assert!(st.layout_done);
    let target = 0u32;
    let region = Region { origin: Point { x: 0, y: 0 }, size: Size { width: 800, height: 600 } };
    w.paint(&target, &region);
    let again = w.root_widget_state();
    assert_eq!(again, st);
}

#[test]
fn init_runs_inside_event_context() {
    let w = live_window();
    assert_eq!(w.root_state().origin, Point { x: 1, y: 2 });
}

#[test]
fn mouse_events_reach_the_widget() {
    let mut w = live_window();
    let ev = MouseEvent { pos: Point { x: 40, y: 50 }, button: 1 };
    w.mouse_down(&ev);
    assert_eq!(w.root_state().origin, Point { x: 40, y: 50 });
    let ev2 = MouseEvent { pos: Point { x: 7, y: 8 }, button: 0 };
    w.mouse_move(&ev2);
    assert_eq!(w.root_state().origin, Point { x: 7, y: 8 });
    w.mouse_up(&ev2);
    w.scroll(&ev2);
}

#[test]
fn key_down_exposes_the_widget_consumed_flag() {
    let mut w = live_window();
    assert!(w.key_down(KeyEvent { code: 4 }));
    assert!(!w.key_down(KeyEvent { code: 5 }));
    assert_eq!(w.root_state().size.width, 5);
    w.key_up(KeyEvent { code: 5 });
}

#[test]
fn timer_and_idle() {
    let mut w = live_window();
    w.timer(TimerToken(33));
    assert_eq!(w.root_state().size.height, 33);
    let before = w.root_state();
    w.idle(IdleToken(0));
    assert_eq!(w.root_state(), before);
}

#[test]
fn size_change_requests_invalidation() {
    let mut w = live_window();
    assert!(!w.take_invalidation());
    w.size_changed(Size::new(100, 200));
    assert!(w.take_invalidation());
    w.prepare_paint();
    assert_eq!(w.root_widget_state().size, Size { width: 100, height: 200 });
}

#[test]
fn relayout_follows_latest_size() {
    let mut w = live_window();
    w.size_changed(Size::new(10, 10));
    w.prepare_paint();
    assert_eq!(w.root_widget_state().size, Size { width: 10, height: 10 });
    w.size_changed(Size::new(20, 30));
    w.prepare_paint();
    assert_eq!(w.root_widget_state().size, Size { width: 20, height: 30 });
}

#[test]
fn widget_host_records_layout_and_origin() {
    let mut host = WidgetHost::new(Recorder);
    assert_eq!(host.state(), WidgetState::new());
    let handle = WindowHandle::new();
    let root_state = WidgetState::new();
    let ctx = LayoutCtx { state: &root_state, window: &handle };
    let size = host.layout(&ctx, BoxConstraints::tight(Size::new(3, 4)));
    assert_eq!(size, Size { width: 3, height: 4 });
    assert_eq!(host.state().size, size);
    assert!(host.state().layout_done);
    host.set_origin(Point { x: 9, y: 9 });
    assert_eq!(host.state().origin, Point { x: 9, y: 9 });
}

#[test]
fn box_constraints_tight() {
    let bc = BoxConstraints::tight(Size::new(5, 6));
    assert_eq!(bc.min, Size { width: 5, height: 6 });
    assert_eq!(bc.max, Size { width: 5, height: 6 });
    assert_eq!(Size::zero(), Size { width: 0, height: 0 });
    assert_eq!(Point::zero(), Point { x: 0, y: 0 });
}
