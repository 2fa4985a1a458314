use base64::Engine;
use deployer::request::File;
use deployer::userdata::{build_boot_script, compile_user_data, get_dir_path};

fn b64(s: &str) -> String {
    base64::engine::general_purpose::URL_SAFE.encode(s)
}

#[test]
fn dir_path_of_nested_file() {
    assert_eq!(get_dir_path("/etc/app/config"), "/etc/app");
}

#[test]
fn dir_path_without_slash_is_empty() {
    assert_eq!(get_dir_path("abc"), "");
    assert_eq!(get_dir_path(""), "");
}

#[test]
fn dir_path_with_trailing_slash() {
    assert_eq!(get_dir_path("/a/"), "/a");
}

#[test]
fn dir_path_keeps_doubled_slashes() {
    assert_eq!(get_dir_path("a//b"), "a/");
    assert_eq!(get_dir_path("/x"), "");
}

#[test]
fn script_without_files_is_header_and_build_only() {
    let script = build_boot_script(&vec![], "github:org/repo");
    assert_eq!(
        script,
        "#!/bin/bash\nnixos-rebuild switch --impure --flake 'github:org/repo'\n"
    );
}

#[test]
fn script_for_one_file_matches_exactly() {
    let files = vec![File {
        content: "hello".to_string(),
        path: "/etc/app/config".to_string(),
    }];
    let script = build_boot_script(&files, "github:org/repo");
    assert_eq!(b64("hello"), "aGVsbG8=");
    assert_eq!(
        script,
        "#!/bin/bash\n\
         mkdir -p /etc/app && echo aGVsbG8= | base64 -d > /etc/app/config\n\
         nixos-rebuild switch --impure --flake 'github:org/repo'\n"
    );
}

#[test]
fn script_preserves_file_order() {
    let files = vec![
        File {
            content: "1".to_string(),
            path: "/etc/a".to_string(),
        },
        File {
            content: "2".to_string(),
            path: "/etc/b".to_string(),
        },
    ];
    let script = build_boot_script(&files, "github:org/repo");
    let write_a = script
        .find(&format!("mkdir -p /etc && echo {} | base64 -d > /etc/a\n", b64("1")))
        .expect("write command for a");
    let write_b = script
        .find(&format!("mkdir -p /etc && echo {} | base64 -d > /etc/b\n", b64("2")))
        .expect("write command for b");
    let build = script
        .find("nixos-rebuild switch --impure --flake 'github:org/repo'\n")
        .expect("build command");
    assert!(write_a < write_b);
    assert!(write_b < build);
}

#[test]
fn user_data_is_encoded_script() {
    let files = vec![File {
        content: "hello".to_string(),
        path: "/etc/app/config".to_string(),
    }];
    let script = build_boot_script(&files, "github:org/repo");
    let encoded = compile_user_data(&files, "github:org/repo");
    assert_eq!(encoded, base64::engine::general_purpose::URL_SAFE.encode(&script));
    assert_ne!(encoded, script);
    let decoded = base64::engine::general_purpose::URL_SAFE
        .decode(&encoded)
        .expect("valid base64");
    assert_eq!(String::from_utf8(decoded).unwrap(), script);
}
