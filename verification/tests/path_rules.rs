use glb_optimizer::paths::{
    ends_with, has_glb_extension, judge_extension, locate_output, locate_script,
};

#[test]
fn ends_with_finds_the_ending() {
    assert!(ends_with("/tmp/model.glb", ".glb"));
    assert!(ends_with(".glb", ".glb"));
    assert!(ends_with("anything", ""));
    assert!(ends_with("", ""));
}

#[test]
fn ends_with_rejects_other_endings() {
    assert!(!ends_with("/tmp/model.txt", ".glb"));
    assert!(!ends_with("/tmp/model.glb ", ".glb"));
    assert!(!ends_with("/tmp/model.GLB", ".glb"));
    assert!(!ends_with("glb", ".glb"));
    assert!(!ends_with("", ".glb"));
}

#[test]
fn ends_with_counts_characters_not_bytes() {
    assert!(ends_with("mod\u{e8}le.glb", ".glb"));
    assert!(ends_with("\u{6a21}\u{578b}.glb", "\u{578b}.glb"));
    assert!(!ends_with("\u{6a21}\u{578b}.glb", "\u{6a21}.glb"));
}

#[test]
fn glb_paths_are_recognised() {
    assert!(has_glb_extension("/tmp/model.glb"));
    assert!(has_glb_extension("model.glb"));
    assert!(has_glb_extension("/assets/scene.v2.glb"));
    assert!(has_glb_extension("relative/dir/a.glb"));
}

#[test]
fn other_extensions_are_refused() {
    assert!(!has_glb_extension("/tmp/model.txt"));
    assert!(!has_glb_extension("/tmp/model.gltf"));
    assert!(!has_glb_extension("/tmp/model.glb.bak"));
    assert!(!has_glb_extension("/tmp/model"));
    assert!(!has_glb_extension("/tmp/modelglb"));
    assert!(!has_glb_extension(""));
}

#[test]
fn extension_is_case_sensitive() {
    assert!(!has_glb_extension("/tmp/model.GLB"));
    assert!(!has_glb_extension("/tmp/model.Glb"));
}

#[test]
fn a_bare_dot_glb_has_no_extension() {
    assert!(!has_glb_extension(".glb"));
    assert!(!has_glb_extension("/tmp/.glb"));
}

#[test]
fn a_path_that_goes_on_after_the_file_name_is_refused() {
    assert!(!has_glb_extension("/tmp/model.glb/"));
    assert!(!has_glb_extension("/tmp/model.glb/."));
}

#[test]
fn judge_extension_wants_ending_and_extension() {
    assert!(judge_extension("/tmp/model.glb", &Some(String::from("glb"))));
    assert!(!judge_extension("/tmp/model.glb", &None));
    assert!(!judge_extension("/tmp/model.glb", &Some(String::from("GLB"))));
    assert!(!judge_extension("/tmp/model.glb", &Some(String::from("gl"))));
    assert!(!judge_extension("/tmp/model.glb/", &Some(String::from("glb"))));
    assert!(!judge_extension("/tmp/model.txt", &Some(String::from("glb"))));
}

#[test]
fn script_lies_in_the_sidecar_directory() {
    let expected: String = ["/res", "sidecar", "optimize-glb.js"].join(std::path::MAIN_SEPARATOR_STR);
    assert_eq!(locate_script("/res"), expected);
}

#[test]
fn script_path_on_unix() {
    if std::path::MAIN_SEPARATOR == '/' {
        assert_eq!(locate_script("/opt/app/resources"), "/opt/app/resources/sidecar/optimize-glb.js");
        assert_eq!(locate_script("/opt/app/resources/"), "/opt/app/resources/sidecar/optimize-glb.js");
        assert_eq!(locate_script(""), "sidecar/optimize-glb.js");
    }
}

#[test]
fn output_file_has_a_fixed_name() {
    let expected: String = ["/tmp", "glb_optimized_output.glb"].join(std::path::MAIN_SEPARATOR_STR);
    assert_eq!(locate_output("/tmp"), expected);
}

#[test]
fn output_path_on_unix() {
    if std::path::MAIN_SEPARATOR == '/' {
        assert_eq!(locate_output("/var/tmp/"), "/var/tmp/glb_optimized_output.glb");
        assert_eq!(locate_output("/tmp"), "/tmp/glb_optimized_output.glb");
    }
}

#[test]
fn output_path_is_the_same_for_every_call() {
    assert_eq!(locate_output("/tmp"), locate_output("/tmp"));
}
