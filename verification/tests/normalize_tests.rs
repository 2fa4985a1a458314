use deployer::error::ErrorCode;
use deployer::request::{normalize, DeployAWSInput, File, Target};

fn base_input() -> DeployAWSInput {
    DeployAWSInput {
        flake_url: "github:org/repo".to_string(),
        instance_type: "t3.micro".to_string(),
        deployment_slug: "demo".to_string(),
        files: None,
        subdomain_prefix: "demo".to_string(),
        min_size: None,
        max_size: None,
        targets: None,
    }
}

#[test]
fn default_target_is_single_port_8000() {
    let n = normalize(base_input()).unwrap();
    assert_eq!(n.targets.len(), 1);
    assert_eq!(n.targets[0].port, 8000);
    assert!(n.targets[0].health_check_path.is_none());
    assert!(n.targets[0].health_check_enabled.is_none());
}

#[test]
fn default_sizes_are_one() {
    let n = normalize(base_input()).unwrap();
    assert_eq!(n.min_size, 1);
    assert_eq!(n.max_size, 1);
    assert_eq!(n.files.len(), 0);
}

#[test]
fn explicit_fields_are_kept() {
    let mut input = base_input();
    input.min_size = Some(2);
    input.max_size = Some(5);
    input.files = Some(vec![File {
        content: "hello".to_string(),
        path: "/etc/app/config".to_string(),
    }]);
    input.targets = Some(vec![Target {
        port: 8080,
        health_check_path: Some("/health".to_string()),
        health_check_enabled: Some(true),
    }]);
    let n = normalize(input).unwrap();
    assert_eq!(n.min_size, 2);
    assert_eq!(n.max_size, 5);
    assert_eq!(n.files.len(), 1);
    assert_eq!(n.files[0].path, "/etc/app/config");
    assert_eq!(n.targets.len(), 1);
    assert_eq!(n.targets[0].port, 8080);
    assert_eq!(n.targets[0].health_check_path.as_deref(), Some("/health"));
    assert_eq!(n.targets[0].health_check_enabled, Some(true));
    assert_eq!(n.flake_url, "github:org/repo");
    assert_eq!(n.deployment_slug, "demo");
    assert_eq!(n.subdomain_prefix, "demo");
    assert_eq!(n.instance_type, "t3.micro");
}

#[test]
fn empty_slug_is_rejected() {
    let mut input = base_input();
    input.deployment_slug = "".to_string();
    let e = normalize(input).unwrap_err();
    assert_eq!(e.code, ErrorCode::ValidationError);
    assert_eq!(e.status, 500);
    assert_eq!(e.code_str(), "ValidationError");
}

#[test]
fn empty_subdomain_is_rejected() {
    let mut input = base_input();
    input.subdomain_prefix = "".to_string();
    let e = normalize(input).unwrap_err();
    assert_eq!(e.code, ErrorCode::ValidationError);
    assert_eq!(e.status, 500);
}

#[test]
fn port_zero_is_rejected() {
    let mut input = base_input();
    input.targets = Some(vec![Target {
        port: 0,
        health_check_path: None,
        health_check_enabled: None,
    }]);
    let e = normalize(input).unwrap_err();
    assert_eq!(e.code, ErrorCode::ValidationError);
}

#[test]
fn port_above_65535_is_rejected() {
    let mut input = base_input();
    input.targets = Some(vec![
        Target {
            port: 80,
            health_check_path: None,
            health_check_enabled: None,
        },
        Target {
            port: 65536,
            health_check_path: None,
            health_check_enabled: None,
        },
    ]);
    let e = normalize(input).unwrap_err();
    assert_eq!(e.code, ErrorCode::ValidationError);
}

#[test]
fn boundary_ports_are_accepted() {
    let mut input = base_input();
    input.targets = Some(vec![
        Target {
            port: 1,
            health_check_path: None,
            health_check_enabled: None,
        },
        Target {
            port: 65535,
            health_check_path: None,
            health_check_enabled: None,
        },
    ]);
    let n = normalize(input).unwrap();
    assert_eq!(n.targets.len(), 2);
}

#[test]
fn empty_target_list_is_rejected() {
    let mut input = base_input();
    input.targets = Some(vec![]);
    let e = normalize(input).unwrap_err();
    assert_eq!(e.code, ErrorCode::ValidationError);
}

#[test]
fn zero_min_size_is_rejected() {
    let mut input = base_input();
    input.min_size = Some(0);
    let e = normalize(input).unwrap_err();
    assert_eq!(e.code, ErrorCode::ValidationError);
}

#[test]
fn zero_max_size_is_rejected() {
    let mut input = base_input();
    input.max_size = Some(0);
    let e = normalize(input).unwrap_err();
    assert_eq!(e.code, ErrorCode::ValidationError);
}
