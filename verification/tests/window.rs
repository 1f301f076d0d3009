use sixtyfps_corelib::component::{
    ComponentRc, EvaluationContext, ItemRc, KeyEvent, KeyboardModifiers, MouseEventType, Point,
};
use sixtyfps_corelib::window::{
    ComponentWindow, GenericWindow, WindowAction, WindowController, WindowEvent,
};

fn window() -> ComponentWindow<WindowController> {
    ComponentWindow::new(WindowController::new())
}

fn component(n: usize) -> ComponentRc {
    ComponentRc { instance: n, vtable: 0x7000 }
}

fn item(n: usize) -> ItemRc {
    ItemRc { component: component(1), index: n }
}

fn press(code: u32) -> KeyEvent {
    KeyEvent::KeyPressed { code, modifiers: KeyboardModifiers(0) }
}

#[test]
fn new_window_is_unmapped_and_unbound() {
    let mut w = window();
    assert_eq!(w.0.component(), None);
    assert!(!w.0.is_mapped());
    assert_eq!(w.0.focus_item(), None);
    assert_eq!(w.0.popup(), None);
    assert_eq!(w.0.cursor_blink_binding(), None);
    assert_eq!(w.0.get_geometry(), (0, 0));
    assert_eq!(w.current_keyboard_modifiers(), KeyboardModifiers(0));
    assert_eq!(w.take_actions(), vec![]);
}

#[test]
fn map_window_takes_the_declared_size() {
    let mut w = window();
    w.set_component(&component(1));
    w.0.map_window(Some((320, 240)));
    assert!(w.0.is_mapped());
    assert_eq!(w.0.get_geometry(), (320, 240));
    assert_eq!(w.take_actions(), vec![WindowAction::Resize(320, 240)]);
}

#[test]
fn map_window_without_declared_size_keeps_the_size() {
    let mut w = window();
    w.0.set_width(100);
    w.0.set_height(50);
    w.0.map_window(None);
    assert!(w.0.is_mapped());
    assert_eq!(w.0.get_geometry(), (100, 50));
    assert_eq!(w.take_actions(), vec![]);
}

#[test]
fn window_can_be_unmapped_and_mapped_again() {
    let mut w = window();
    w.0.map_window(Some((10, 20)));
    w.set_focus_item(&item(2));
    w.0.unmap_window();
    assert!(!w.0.is_mapped());
    assert_eq!(w.0.focus_item(), Some(item(2)));
    assert_eq!(w.0.get_geometry(), (10, 20));
    w.0.map_window(None);
    assert!(w.0.is_mapped());
}

#[test]
fn declared_size_changes_resize_the_window() {
    let mut w = window();
    w.0.map_window(Some((320, 240)));
    w.0.root_resized(640, 480);
    assert_eq!(w.0.get_geometry(), (640, 480));
    assert_eq!(
        w.take_actions(),
        vec![WindowAction::Resize(320, 240), WindowAction::Resize(640, 480)]
    );
}

#[test]
fn key_press_without_focus_item_is_dropped() {
    let mut w = window();
    w.set_component(&component(1));
    w.0.map_window(Some((320, 240)));
    let _ = w.take_actions();
    w.process_key_input(&press(65));
    assert_eq!(w.take_actions(), vec![]);
    assert_eq!(w.0.focus_item(), None);
}

#[test]
fn key_event_goes_to_the_focus_item() {
    let mut w = window();
    w.set_focus_item(&item(4));
    let _ = w.take_actions();
    let release = KeyEvent::KeyReleased { code: 66, modifiers: KeyboardModifiers(1) };
    let input = KeyEvent::CharacterInput { unicode_scalar: 0x61, modifiers: KeyboardModifiers(0) };
    w.process_key_input(&press(66));
    w.process_key_input(&release);
    w.process_key_input(&input);
    assert_eq!(
        w.take_actions(),
        vec![
            WindowAction::Key(item(4), press(66)),
            WindowAction::Key(item(4), release),
            WindowAction::Key(item(4), input),
        ]
    );
}

#[test]
fn focus_moves_from_one_item_to_the_next() {
    let mut w = window();
    w.set_focus_item(&item(1));
    assert_eq!(w.take_actions(), vec![WindowAction::FocusIn(item(1))]);
    w.set_focus_item(&item(2));
    assert_eq!(
        w.take_actions(),
        vec![WindowAction::FocusOut(item(1)), WindowAction::FocusIn(item(2))]
    );
    assert_eq!(w.0.focus_item(), Some(item(2)));
}

#[test]
fn window_focus_is_reported_to_the_focus_item() {
    let mut w = window();
    w.0.set_focus(true);
    assert_eq!(w.take_actions(), vec![]);
    w.set_focus_item(&item(3));
    let _ = w.take_actions();
    w.0.set_focus(false);
    w.0.set_focus(true);
    assert_eq!(
        w.take_actions(),
        vec![WindowAction::WindowFocusLost(item(3)), WindowAction::WindowFocusReceived(item(3))]
    );
    assert_eq!(w.0.focus_item(), Some(item(3)));
}

#[test]
fn second_popup_replaces_the_first() {
    let mut w = window();
    w.0.map_window(Some((320, 240)));
    w.set_focus_item(&item(1));
    let _ = w.take_actions();
    w.show_popup(&component(8), Point { x: 1, y: 2 });
    assert_eq!(w.0.popup(), Some((component(8), Point { x: 1, y: 2 })));
    w.show_popup(&component(9), Point { x: -3, y: 4 });
    assert_eq!(w.0.popup(), Some((component(9), Point { x: -3, y: 4 })));
    assert_eq!(w.0.focus_item(), Some(item(1)));
    assert_eq!(w.0.get_geometry(), (320, 240));
    assert_eq!(w.take_actions(), vec![]);
    w.close_popup();
    assert_eq!(w.0.popup(), None);
}

#[test]
fn close_popup_without_popup_changes_nothing() {
    let mut w = window();
    w.set_component(&component(1));
    w.close_popup();
    assert_eq!(w.0.popup(), None);
    assert_eq!(w.0.component(), Some(component(1)));
    assert_eq!(w.take_actions(), vec![]);
}

#[test]
fn set_component_rebinds_the_window() {
    let mut w = window();
    w.set_component(&component(1));
    w.set_focus_item(&item(1));
    w.set_component(&component(2));
    assert_eq!(w.0.component(), Some(component(2)));
    assert_eq!(w.0.focus_item(), Some(item(1)));
}

#[test]
fn free_graphics_resources_evicts_each_item_in_order() {
    let mut w = window();
    w.0.request_redraw();
    w.free_graphics_resources(&[item(3), item(1), item(2)]);
    w.free_graphics_resources(&[]);
    assert_eq!(
        w.take_actions(),
        vec![
            WindowAction::RequestRedraw,
            WindowAction::Evict(item(3)),
            WindowAction::Evict(item(1)),
            WindowAction::Evict(item(2)),
        ]
    );
}

#[test]
fn modifiers_and_blink_binding_are_recorded() {
    let mut w = window();
    w.set_current_keyboard_modifiers(KeyboardModifiers(5));
    assert_eq!(w.current_keyboard_modifiers(), KeyboardModifiers(5));
    w.set_cursor_blink_binding(0x4242);
    assert_eq!(w.0.cursor_blink_binding(), Some(0x4242));
}

#[test]
fn handle_event_routes_each_kind() {
    let mut w = window();
    w.set_focus_item(&item(1));
    let _ = w.take_actions();
    w.handle_event(&WindowEvent::Resized(800, 600));
    assert_eq!(w.0.get_geometry(), (800, 600));
    w.handle_event(&WindowEvent::ModifiersChanged(KeyboardModifiers(2)));
    assert_eq!(w.current_keyboard_modifiers(), KeyboardModifiers(2));
    w.handle_event(&WindowEvent::Key(press(13)));
    w.handle_event(&WindowEvent::Focus(false));
    w.handle_event(&WindowEvent::RedrawRequested);
    w.handle_event(&WindowEvent::Mouse(Point { x: 3, y: 4 }, MouseEventType::MousePressed));
    assert_eq!(
        w.take_actions(),
        vec![
            WindowAction::Key(item(1), press(13)),
            WindowAction::WindowFocusLost(item(1)),
            WindowAction::Draw,
            WindowAction::Mouse(Point { x: 3, y: 4 }, MouseEventType::MousePressed),
        ]
    );
}

#[test]
fn run_maps_handles_events_and_unmaps() {
    let mut w = window();
    w.set_component(&component(1));
    w.set_focus_item(&item(7));
    let _ = w.take_actions();
    w.run(
        Some((320, 240)),
        &[
            WindowEvent::Focus(true),
            WindowEvent::Key(press(1)),
            WindowEvent::Resized(400, 300),
            WindowEvent::RedrawRequested,
        ],
    );
    assert!(!w.0.is_mapped());
    assert_eq!(w.0.get_geometry(), (400, 300));
    assert_eq!(
        w.take_actions(),
        vec![
            WindowAction::Resize(320, 240),
            WindowAction::WindowFocusReceived(item(7)),
            WindowAction::Key(item(7), press(1)),
            WindowAction::Draw,
        ]
    );
}

#[test]
fn run_without_events_only_maps_and_unmaps() {
    let mut w = window();
    w.run(None, &[]);
    assert!(!w.0.is_mapped());
    assert_eq!(w.take_actions(), vec![]);
}

#[test]
fn take_actions_empties_the_queue() {
    let mut w = window();
    w.0.request_redraw();
    assert_eq!(w.take_actions(), vec![WindowAction::RequestRedraw]);
    assert_eq!(w.take_actions(), vec![]);
}

#[test]
fn mouse_events_are_passed_on_as_they_came() {
    let mut w = window();
    w.0.process_mouse_input(Point { x: 10, y: 20 }, MouseEventType::MouseMoved);
    w.0.process_mouse_input(Point { x: 10, y: 20 }, MouseEventType::MousePressed);
    w.0.process_mouse_input(Point { x: -1, y: 0 }, MouseEventType::MouseReleased);
    assert_eq!(
        w.take_actions(),
        vec![
            WindowAction::Mouse(Point { x: 10, y: 20 }, MouseEventType::MouseMoved),
            WindowAction::Mouse(Point { x: 10, y: 20 }, MouseEventType::MousePressed),
            WindowAction::Mouse(Point { x: -1, y: 0 }, MouseEventType::MouseReleased),
        ]
    );
    assert_eq!(w.0.focus_item(), None);
}

#[test]
fn draw_and_redraw_request_are_distinct() {
    let mut w = window();
    w.0.request_redraw();
    w.0.draw();
    assert_eq!(w.take_actions(), vec![WindowAction::RequestRedraw, WindowAction::Draw]);
}

#[test]
fn actions_name_their_target_and_context() {
    let popup_item = ItemRc { component: component(9), index: 2 };
    let key = WindowAction::Key(popup_item, press(1));
    assert_eq!(key.target(), Some(popup_item));
    assert_eq!(key.context(), Some(EvaluationContext { component: component(9) }));
    assert_eq!(WindowAction::FocusIn(item(1)).target(), Some(item(1)));
    assert_eq!(WindowAction::FocusOut(item(2)).target(), Some(item(2)));
    assert_eq!(WindowAction::WindowFocusLost(item(3)).target(), Some(item(3)));
    assert_eq!(WindowAction::WindowFocusReceived(item(4)).target(), Some(item(4)));
    assert_eq!(
        WindowAction::Evict(item(5)).context(),
        Some(EvaluationContext { component: component(1) })
    );
    assert_eq!(WindowAction::Resize(1, 2).target(), None);
    assert_eq!(WindowAction::RequestRedraw.context(), None);
    assert_eq!(WindowAction::Draw.target(), None);
    let moved = WindowAction::Mouse(Point { x: 0, y: 0 }, MouseEventType::MouseMoved);
    assert_eq!(moved.context(), None);
}
