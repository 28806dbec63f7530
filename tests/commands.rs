use host_shell::builder::{configure_host, BuildMode};
use host_shell::commands::{greet, Command, CommandRegistry, DispatchError, DuplicateCommand};

fn name_args(name: &str) -> Vec<(String, String)> {
    vec![("name".to_string(), name.to_string())]
}

#[test]
fn greet_formats_name() {
    assert_eq!(greet("Ada"), "Hello, Ada! You've been greeted from Rust!");
}

#[test]
fn greet_empty_name() {
    assert_eq!(greet(""), "Hello, ! You've been greeted from Rust!");
}

#[test]
fn greet_keeps_non_ascii_name() {
    assert_eq!(greet("Zoë 李"), "Hello, Zoë 李! You've been greeted from Rust!");
}

#[test]
fn dispatch_greet_on_host() {
    let host = configure_host(BuildMode::Debug);
    let r = host.commands().dispatch("greet", &name_args("Ada"));
    assert_eq!(r, Ok("Hello, Ada! You've been greeted from Rust!".to_string()));
}

#[test]
fn dispatch_greet_empty_name_on_release_host() {
    let host = configure_host(BuildMode::Release);
    let r = host.commands().dispatch("greet", &name_args(""));
    assert_eq!(r, Ok("Hello, ! You've been greeted from Rust!".to_string()));
}

#[test]
fn dispatch_unknown_command() {
    let host = configure_host(BuildMode::Debug);
    let r = host.commands().dispatch("nonexistent", &Vec::new());
    assert_eq!(r, Err(DispatchError::UnknownCommand));
}

#[test]
fn dispatch_on_empty_registry_is_unknown() {
    let reg = CommandRegistry::new();
    assert_eq!(reg.dispatch("greet", &name_args("Ada")), Err(DispatchError::UnknownCommand));
}

#[test]
fn dispatch_missing_argument_is_shape_mismatch() {
    let host = configure_host(BuildMode::Debug);
    let args = vec![("nom".to_string(), "Ada".to_string())];
    assert_eq!(host.commands().dispatch("greet", &args), Err(DispatchError::ArgumentShapeMismatch));
}

#[test]
fn dispatch_reads_first_name_field() {
    let host = configure_host(BuildMode::Debug);
    let args = vec![
        ("extra".to_string(), "x".to_string()),
        ("name".to_string(), "Bo".to_string()),
        ("name".to_string(), "Cy".to_string()),
    ];
    let r = host.commands().dispatch("greet", &args);
    assert_eq!(r, Ok("Hello, Bo! You've been greeted from Rust!".to_string()));
}

#[test]
fn register_duplicate_name_is_refused() {
    let mut reg = CommandRegistry::new();
    assert_eq!(reg.register("greet".to_string(), Command::Greet), Ok(()));
    assert_eq!(reg.register("greet".to_string(), Command::Greet), Err(DuplicateCommand));
    assert_eq!(reg.len(), 1);
    assert!(reg.contains("greet"));
    assert!(!reg.contains("hello"));
}

#[test]
fn register_distinct_names() {
    let mut reg = CommandRegistry::new();
    assert_eq!(reg.register("greet".to_string(), Command::Greet), Ok(()));
    assert_eq!(reg.register("hello".to_string(), Command::Greet), Ok(()));
    assert_eq!(reg.len(), 2);
    let r = reg.dispatch("hello", &name_args("Di"));
    assert_eq!(r, Ok("Hello, Di! You've been greeted from Rust!".to_string()));
}
