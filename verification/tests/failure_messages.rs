use glb_optimizer::failure::Failure;

#[test]
fn missing_input_message_names_the_path() {
    let failure = Failure::InputMissing { path: String::from("/tmp/absent.glb") };
    assert_eq!(failure.message(), "Input file does not exist: /tmp/absent.glb");
}

#[test]
fn wrong_extension_message_is_fixed() {
    assert_eq!(Failure::NotGlb.message(), "Input file must have a .glb extension");
}

#[test]
fn invalid_config_message_carries_the_reason() {
    let failure = Failure::InvalidConfig { reason: String::from("expected value at line 1 column 1") };
    assert_eq!(failure.message(), "Invalid config JSON: expected value at line 1 column 1");
}

#[test]
fn unknown_resources_message_carries_the_reason() {
    let failure = Failure::ResourcesUnavailable { reason: String::from("unknown path") };
    assert_eq!(failure.message(), "Failed to get resource dir: unknown path");
}

#[test]
fn missing_script_message_names_the_path() {
    let failure = Failure::ScriptMissing { path: String::from("/res/sidecar/optimize-glb.js") };
    assert_eq!(
        failure.message(),
        "Optimization script not found at: /res/sidecar/optimize-glb.js"
    );
}

#[test]
fn launch_failure_message_gives_reason_and_hint() {
    let failure = Failure::LaunchFailed { reason: String::from("No such file or directory (os error 2)") };
    assert_eq!(
        failure.message(),
        "Failed to run node: No such file or directory (os error 2)\nMake sure Node.js is installed and available in PATH."
    );
}

#[test]
fn script_failure_message_carries_the_diagnostics() {
    let failure = Failure::ScriptFailed { diagnostics: String::from("Error: bad mesh\n") };
    assert_eq!(failure.message(), "Optimization script failed:\nError: bad mesh\n");
}

#[test]
fn empty_details_leave_the_fixed_text() {
    assert_eq!(
        Failure::InputMissing { path: String::new() }.message(),
        "Input file does not exist: "
    );
    assert_eq!(
        Failure::LaunchFailed { reason: String::new() }.message(),
        "Failed to run node: \nMake sure Node.js is installed and available in PATH."
    );
    assert_eq!(
        Failure::ScriptFailed { diagnostics: String::new() }.message(),
        "Optimization script failed:\n"
    );
}

#[test]
fn messages_of_different_failures_differ() {
    let same_detail = String::from("x");
    let failures = vec![
        Failure::InputMissing { path: same_detail.clone() },
        Failure::NotGlb,
        Failure::InvalidConfig { reason: same_detail.clone() },
        Failure::ResourcesUnavailable { reason: same_detail.clone() },
        Failure::ScriptMissing { path: same_detail.clone() },
        Failure::LaunchFailed { reason: same_detail.clone() },
        Failure::ScriptFailed { diagnostics: same_detail.clone() },
    ];
    for (i, a) in failures.iter().enumerate() {
        for (j, b) in failures.iter().enumerate() {
            assert_eq!(a.message() == b.message(), i == j);
        }
    }
}

#[test]
fn unknown_resources_and_missing_script_read_differently() {
    let unavailable = Failure::ResourcesUnavailable { reason: String::from("/res") };
    let missing = Failure::ScriptMissing { path: String::from("/res") };
    assert_ne!(unavailable, missing);
    assert_ne!(unavailable.message(), missing.message());
    assert!(unavailable.message().starts_with("Failed to get resource dir: "));
    assert!(missing.message().starts_with("Optimization script not found at: "));
}
