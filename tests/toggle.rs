use host_shell::builder::{configure_host, BuildMode};
use host_shell::toggle::{PanelCommand, DebugPanelState, ShortcutEvent};

#[test]
fn toggle_open_then_close() {
    let host = configure_host(BuildMode::Debug);
    let mut t = host.debug_toggle().unwrap();
    assert_eq!(t.state(), DebugPanelState::Closed);
    assert_eq!(t.handle(ShortcutEvent::Pressed, true), Some(PanelCommand::OpenPanel));
    assert_eq!(t.state(), DebugPanelState::Open);
    assert_eq!(t.handle(ShortcutEvent::Pressed, true), Some(PanelCommand::ClosePanel));
    assert_eq!(t.state(), DebugPanelState::Closed);
}

#[test]
fn toggle_release_is_ignored() {
    let host = configure_host(BuildMode::Debug);
    let mut t = host.debug_toggle().unwrap();
    assert_eq!(t.handle(ShortcutEvent::Released, true), None);
    assert_eq!(t.state(), DebugPanelState::Closed);
    assert_eq!(t.handle(ShortcutEvent::Pressed, true), Some(PanelCommand::OpenPanel));
    assert_eq!(t.handle(ShortcutEvent::Released, true), None);
    assert_eq!(t.state(), DebugPanelState::Open);
}

#[test]
fn toggle_without_window_is_noop() {
    let host = configure_host(BuildMode::Debug);
    let mut t = host.debug_toggle().unwrap();
    assert_eq!(t.handle(ShortcutEvent::Pressed, false), None);
    assert_eq!(t.state(), DebugPanelState::Closed);
    assert_eq!(t.handle(ShortcutEvent::Pressed, true), Some(PanelCommand::OpenPanel));
    assert_eq!(t.handle(ShortcutEvent::Pressed, false), None);
    assert_eq!(t.state(), DebugPanelState::Open);
}

#[test]
fn release_host_has_no_toggle() {
    assert!(configure_host(BuildMode::Release).debug_toggle().is_none());
}
