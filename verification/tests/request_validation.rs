use glb_optimizer::failure::Failure;
use glb_optimizer::validation::validate;

#[test]
fn valid_request_passes() {
    assert_eq!(validate(true, "/tmp/model.glb", "{\"quality\":\"high\"}"), Ok(()));
}

#[test]
fn missing_input_is_the_first_complaint() {
    assert_eq!(
        validate(false, "/tmp/model.txt", "{bad json"),
        Err(Failure::InputMissing { path: String::from("/tmp/model.txt") })
    );
    assert_eq!(
        validate(false, "/tmp/model.glb", "{}"),
        Err(Failure::InputMissing { path: String::from("/tmp/model.glb") })
    );
}

#[test]
fn wrong_extension_comes_before_the_config() {
    assert_eq!(validate(true, "/tmp/model.txt", "{bad json"), Err(Failure::NotGlb));
    assert_eq!(validate(true, "/tmp/model.txt", "{}"), Err(Failure::NotGlb));
}

#[test]
fn upper_case_extension_fails_validation() {
    assert_eq!(validate(true, "/tmp/MODEL.GLB", "{}"), Err(Failure::NotGlb));
}

#[test]
fn malformed_config_fails_validation() {
    assert_eq!(
        validate(true, "/tmp/model.glb", "{bad json"),
        Err(Failure::InvalidConfig {
            reason: String::from("key must be a string at line 1 column 2")
        })
    );
}
