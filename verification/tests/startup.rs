use crash_fixture::startup::{on_runtime_build, on_serve_result, StartAction};

#[test]
fn successful_runtime_build_proceeds() {
    assert!(matches!(on_runtime_build(true), StartAction::Proceed));
}

#[test]
fn failed_runtime_build_aborts() {
    match on_runtime_build(false) {
        StartAction::Abort { message } => assert_eq!(message, "Failed to build Tokio runtime"),
        StartAction::Proceed => panic!("a failed runtime build must abort"),
    }
}

#[test]
fn serving_proceeds() {
    assert!(matches!(on_serve_result(true), StartAction::Proceed));
}

#[test]
fn bind_failure_aborts_at_once() {
    match on_serve_result(false) {
        StartAction::Abort { message } => assert_eq!(message, "Failed to start server"),
        StartAction::Proceed => panic!("a port already in use must abort startup"),
    }
}
