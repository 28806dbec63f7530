use host_shell::builder::{
    configure_host, BuildError, BuildMode, Capability, HostBuilder, Hotkey, LogLevel, SetupAction,
};
use host_shell::commands::Command;

#[test]
fn debug_host_attaches_tooling() {
    let host = configure_host(BuildMode::Debug);
    assert_eq!(host.mode(), BuildMode::Debug);
    assert_eq!(host.plugins(), &vec![Capability::GlobalShortcut]);
    assert_eq!(
        host.setup_actions(),
        &vec![
            SetupAction::AttachPlugin(Capability::Logging(LogLevel::Info)),
            SetupAction::RegisterHotkey(Hotkey::F12),
        ]
    );
    assert_eq!(host.hotkey(), Some(Hotkey::F12));
    assert!(host.debug_toggle().is_some());
    assert_eq!(host.commands().len(), 1);
    assert!(host.commands().contains("greet"));
}

#[test]
fn release_host_attaches_no_tooling() {
    let host = configure_host(BuildMode::Release);
    assert_eq!(host.mode(), BuildMode::Release);
    assert!(host.plugins().is_empty());
    assert!(host.setup_actions().is_empty());
    assert_eq!(host.hotkey(), None);
    assert!(host.debug_toggle().is_none());
    assert!(host.commands().contains("greet"));
}

#[test]
fn release_builder_skips_debug_plugins() {
    let b = HostBuilder::new(BuildMode::Release)
        .with_plugin(Capability::Logging(LogLevel::Trace))
        .with_plugin(Capability::GlobalShortcut)
        .setup(vec![
            SetupAction::RegisterHotkey(Hotkey::F12),
            SetupAction::AttachPlugin(Capability::Logging(LogLevel::Warn)),
        ]);
    let mut b = b;
    let host = b.build().unwrap();
    assert!(host.plugins().is_empty());
    assert!(host.setup_actions().is_empty());
    assert_eq!(host.hotkey(), None);
}

#[test]
fn debug_builder_keeps_order() {
    let mut b = HostBuilder::new(BuildMode::Debug)
        .with_plugin(Capability::GlobalShortcut)
        .with_plugin(Capability::Logging(LogLevel::Error))
        .setup(vec![
            SetupAction::RegisterHotkey(Hotkey::F12),
            SetupAction::AttachPlugin(Capability::Logging(LogLevel::Debug)),
        ]);
    let host = b.build().unwrap();
    assert_eq!(
        host.plugins(),
        &vec![Capability::GlobalShortcut, Capability::Logging(LogLevel::Error)]
    );
    assert_eq!(
        host.setup_actions(),
        &vec![
            SetupAction::RegisterHotkey(Hotkey::F12),
            SetupAction::AttachPlugin(Capability::Logging(LogLevel::Debug)),
        ]
    );
}

#[test]
fn later_setup_replaces_earlier() {
    let mut b = HostBuilder::new(BuildMode::Debug)
        .setup(vec![SetupAction::RegisterHotkey(Hotkey::F12)])
        .setup(vec![SetupAction::AttachPlugin(Capability::GlobalShortcut)]);
    let host = b.build().unwrap();
    assert_eq!(host.setup_actions(), &vec![SetupAction::AttachPlugin(Capability::GlobalShortcut)]);
    assert_eq!(host.hotkey(), None);
}

#[test]
fn duplicate_command_fails_build() {
    let mut b = HostBuilder::new(BuildMode::Debug)
        .register("greet".to_string(), Command::Greet)
        .register("other".to_string(), Command::Greet)
        .register("greet".to_string(), Command::Greet);
    assert_eq!(b.build().err(), Some(BuildError::DuplicateCommand));
    assert!(b.is_consumed());
}

#[test]
fn second_build_fails() {
    let mut b = HostBuilder::new(BuildMode::Release).register("greet".to_string(), Command::Greet);
    assert!(!b.is_consumed());
    let first = b.build();
    assert!(first.is_ok());
    assert!(b.is_consumed());
    assert_eq!(b.build().err(), Some(BuildError::AlreadyConsumed));
    assert_eq!(b.build().err(), Some(BuildError::AlreadyConsumed));
}

#[test]
fn permitted_in_follows_mode() {
    assert!(Capability::GlobalShortcut.permitted_in(BuildMode::Debug));
    assert!(!Capability::GlobalShortcut.permitted_in(BuildMode::Release));
    assert!(!Capability::Logging(LogLevel::Info).permitted_in(BuildMode::Release));
    assert!(!SetupAction::RegisterHotkey(Hotkey::F12).permitted_in(BuildMode::Release));
    assert!(SetupAction::RegisterHotkey(Hotkey::F12).permitted_in(BuildMode::Debug));
}

#[test]
fn hotkey_accelerator_text() {
    assert_eq!(Hotkey::F12.accelerator(), "F12");
}
