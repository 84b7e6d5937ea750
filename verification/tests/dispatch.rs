use sdlpatch::dispatch::{config_probe_paths, configs, dispatch, usage_message, Operation};

#[test]
fn recognized_operations_dispatch() {
    assert_eq!(dispatch(&"post_build".to_string()), Operation::PostBuild);
    assert_eq!(dispatch(&"configs".to_string()), Operation::Configs);
}

#[test]
fn unknown_operation_is_rejected_with_usage() {
    assert_eq!(dispatch(&"frobnicate".to_string()), Operation::Unknown);
    let usage = usage_message("frobnicate");
    assert!(usage.contains("post_build"));
    assert!(usage.contains("configs"));
    assert!(usage.contains("frobnicate"));
    assert_eq!(
        usage,
        "I only know how to do: \npost_build\nconfigs\nbut you wanted me to do: frobnicate"
    );
}

#[test]
fn operation_words_are_exact() {
    assert_eq!(dispatch(&"post_build ".to_string()), Operation::Unknown);
    assert_eq!(dispatch(&"POST_BUILD".to_string()), Operation::Unknown);
    assert_eq!(dispatch(&"".to_string()), Operation::Unknown);
}

#[test]
fn configs_prefers_dylib_when_either_path_exists() {
    assert_eq!(configs(true, false), "mac_dylib");
    assert_eq!(configs(false, true), "mac_dylib");
    assert_eq!(configs(true, true), "mac_dylib");
    assert_eq!(configs(false, false), "mac_framework");
}

#[test]
fn config_probe_paths_follow_the_prefix() {
    let (under_prefix, fixed) = config_probe_paths("/usr/local/lib");
    assert_eq!(under_prefix, "/usr/local/lib/libSDL.dylib");
    assert_eq!(fixed, "/usr/lib/libSDL.dylib");
}
