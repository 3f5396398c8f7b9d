use rem::config::Config;
use rem::shell::{window_event, Dispatch, ShellEvent};
use rem::AppCreateInfo;

const NOTHING: Dispatch = Dispatch { exit: false, resized: false, redraw: false, notify: false };

#[test]
fn close_request_leaves_the_event_loop() {
    assert_eq!(window_event(ShellEvent::CloseRequested), Dispatch { exit: true, ..NOTHING });
}

#[test]
fn resize_invalidates_and_notifies() {
    assert_eq!(window_event(ShellEvent::Resized), Dispatch { resized: true, notify: true, ..NOTHING });
}

#[test]
fn redraw_request_draws_and_does_not_notify() {
    assert_eq!(window_event(ShellEvent::RedrawRequested), Dispatch { redraw: true, ..NOTHING });
}

#[test]
fn input_is_handed_to_the_listener() {
    let notify = Dispatch { notify: true, ..NOTHING };
    assert_eq!(window_event(ShellEvent::CursorMoved), notify);
    assert_eq!(window_event(ShellEvent::MouseInput), notify);
    assert_eq!(window_event(ShellEvent::MouseWheel), notify);
    assert_eq!(window_event(ShellEvent::KeyboardInput), notify);
}

#[test]
fn other_events_are_dropped() {
    assert_eq!(window_event(ShellEvent::Other), NOTHING);
}

#[test]
fn default_settings_select_vulkan() {
    assert_eq!(Config::default(), Config { renderer: 0 });
}

#[test]
fn stored_settings_are_used_as_they_are() {
    assert_eq!(Config::or_default(Some(Config { renderer: 7 })), (Config { renderer: 7 }, false));
    assert_eq!(Config::or_default(Some(Config { renderer: 0 })), (Config { renderer: 0 }, false));
}

#[test]
fn missing_settings_are_defaulted_and_to_be_stored() {
    assert_eq!(Config::or_default(None), (Config { renderer: 0 }, true));
}

#[test]
fn default_create_info_is_empty() {
    let info = AppCreateInfo::default();
    assert_eq!(info.title, "");
    assert_eq!(info.size, (0, 0));
    assert_eq!(info.icon, None);
    assert_eq!(info.name, "");
}

#[test]
fn create_info_is_filled_field_by_field() {
    let info = AppCreateInfo { title: "Demo", size: (1280, 720), icon: Some("icon.png"), ..AppCreateInfo::default() };
    assert_eq!(info.title, "Demo");
    assert_eq!(info.size, (1280, 720));
    assert_eq!(info.icon, Some("icon.png"));
    assert_eq!(info.name, "");
}
