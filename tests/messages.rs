use egui_hook::input::{finish_message, MessageCall, MessageRoute, SWALLOWED};
use egui_hook::overlay::{Overlay, PresentCall};

fn ready_overlay(saved: usize) -> Overlay {
    let mut o = Overlay::new();
    o.begin_present(PresentCall { surface: 1, sync_interval: 0, flags: 0 });
    o.complete_init(0x55, saved);
    o
}

fn msg(message: u32) -> MessageCall {
    MessageCall { window: 0x55, message, wparam: 0x41, lparam: -3 }
}

#[test]
fn active_overlay_swallows_messages() {
    let o = ready_overlay(0x7000);
    for m in [0x0100u32, 0x0200, 0x0010] {
        let route = o.route_message(msg(m), true);
        assert_eq!(route, MessageRoute::Swallow);
        assert_eq!(finish_message(&route, 1234), SWALLOWED);
        assert_eq!(SWALLOWED, 0);
    }
}

#[test]
fn inactive_overlay_forwards_unchanged() {
    let o = ready_overlay(0x7000);
    for m in [0x0100u32, 0x0200, 0x0010] {
        let route = o.route_message(msg(m), false);
        assert_eq!(route, MessageRoute::Forward { window_proc: 0x7000, call: msg(m) });
        assert_eq!(finish_message(&route, 1234), 1234);
        assert_eq!(finish_message(&route, -9), -9);
    }
}

#[test]
fn toggling_capture_switches_route() {
    let o = ready_overlay(0x7000);
    let mut reached = Vec::new();
    for (i, active) in [true, false, true, false, false].iter().enumerate() {
        if let MessageRoute::Forward { call, .. } = o.route_message(msg(i as u32), *active) {
            reached.push(call.message);
        }
    }
    assert_eq!(reached, vec![1, 3, 4]);
}
