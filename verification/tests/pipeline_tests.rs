use base64::Engine;
use deployer::error::{Error, ErrorCode};
use deployer::pipeline::{
    AsgReq, AttachTargetGroupsReq, DeployConfig, DescribeLoadBalancersReq, IngressReq,
    LaunchTemplateReq, ListenerReq, LoadBalancerReq, Pipeline, ProviderEvent, ProviderOutcome,
    ProviderRequest, RecordSetReq, SecurityGroupReq, StepAction, TargetGroupReq,
};
use deployer::request::{normalize, DeployAWSInput, DeployAWSOutput, File, Target};

/// A stubbed provider: answers every request, records what was asked,
/// and can be told to fail the n-th call of one kind.
struct FakeProvider {
    fail_at: Option<(&'static str, usize)>,
    /// 1-based poll number on which the load balancer reports "active";
    /// 0 means it never does.
    active_on: usize,
    /// When set, target-group creations answer without an identifier.
    tg_without_arn: bool,
    /// When set, the security-group creation answers without an identifier.
    sg_without_id: bool,
    /// When set, the load-balancer creation answers without a load balancer.
    lb_without_fields: bool,
    lt: Vec<LaunchTemplateReq>,
    asg: Vec<AsgReq>,
    tg: Vec<TargetGroupReq>,
    sg: Vec<SecurityGroupReq>,
    ingress: Vec<IngressReq>,
    lb: Vec<LoadBalancerReq>,
    describe: Vec<DescribeLoadBalancersReq>,
    listeners: Vec<ListenerReq>,
    attach: Vec<AttachTargetGroupsReq>,
    records: Vec<RecordSetReq>,
    sleeps: usize,
    tg_arns_given: Vec<String>,
}

impl FakeProvider {
    fn new() -> FakeProvider {
        FakeProvider {
            fail_at: None,
            active_on: 1,
            tg_without_arn: false,
            sg_without_id: false,
            lb_without_fields: false,
            lt: Vec::new(),
            asg: Vec::new(),
            tg: Vec::new(),
            sg: Vec::new(),
            ingress: Vec::new(),
            lb: Vec::new(),
            describe: Vec::new(),
            listeners: Vec::new(),
            attach: Vec::new(),
            records: Vec::new(),
            sleeps: 0,
            tg_arns_given: Vec::new(),
        }
    }

    fn failing_at(kind: &'static str, index: usize) -> FakeProvider {
        let mut f = FakeProvider::new();
        f.fail_at = Some((kind, index));
        f
    }

    fn should_fail(&self, kind: &'static str, index: usize) -> bool {
        self.fail_at == Some((kind, index))
    }

    fn perform(&mut self, req: ProviderRequest) -> ProviderEvent {
        let injected = || ProviderEvent::Failure("injected provider failure".to_string());
        match req {
            ProviderRequest::CreateLaunchTemplate(q) => {
                self.lt.push(q);
                if self.should_fail("launch_template", self.lt.len() - 1) {
                    return injected();
                }
                ProviderEvent::Success(ProviderOutcome::LaunchTemplateCreated)
            }
            ProviderRequest::CreateAutoScalingGroup(q) => {
                self.asg.push(q);
                if self.should_fail("auto_scaling_group", self.asg.len() - 1) {
                    return injected();
                }
                ProviderEvent::Success(ProviderOutcome::AutoScalingGroupCreated)
            }
            ProviderRequest::CreateTargetGroup(q) => {
                self.tg.push(q);
                if self.should_fail("target_group", self.tg.len() - 1) {
                    return injected();
                }
                if self.tg_without_arn {
                    return ProviderEvent::Success(ProviderOutcome::TargetGroupCreated {
                        target_group_arn: None,
                    });
                }
                let arn = format!("arn:tg:{}", self.tg.len() - 1);
                self.tg_arns_given.push(arn.clone());
                ProviderEvent::Success(ProviderOutcome::TargetGroupCreated {
                    target_group_arn: Some(arn),
                })
            }
            ProviderRequest::CreateSecurityGroup(q) => {
                self.sg.push(q);
                if self.should_fail("security_group", self.sg.len() - 1) {
                    return injected();
                }
                if self.sg_without_id {
                    return ProviderEvent::Success(ProviderOutcome::SecurityGroupCreated {
                        group_id: None,
                    });
                }
                ProviderEvent::Success(ProviderOutcome::SecurityGroupCreated {
                    group_id: Some("sg-123".to_string()),
                })
            }
            ProviderRequest::AuthorizeIngress(q) => {
                self.ingress.push(q);
                if self.should_fail("ingress", self.ingress.len() - 1) {
                    return injected();
                }
                ProviderEvent::Success(ProviderOutcome::IngressAuthorized)
            }
            ProviderRequest::CreateLoadBalancer(q) => {
                self.lb.push(q);
                if self.should_fail("load_balancer", self.lb.len() - 1) {
                    return injected();
                }
                if self.lb_without_fields {
                    return ProviderEvent::Success(ProviderOutcome::LoadBalancerCreated {
                        dns_name: None,
                        load_balancer_arn: None,
                    });
                }
                ProviderEvent::Success(ProviderOutcome::LoadBalancerCreated {
                    dns_name: Some("lb.example.com".to_string()),
                    load_balancer_arn: Some("arn:lb:1".to_string()),
                })
            }
            ProviderRequest::DescribeLoadBalancers(q) => {
                self.describe.push(q);
                if self.should_fail("describe", self.describe.len() - 1) {
                    return injected();
                }
                let code = if self.active_on > 0 && self.describe.len() >= self.active_on {
                    "active"
                } else {
                    "provisioning"
                };
                ProviderEvent::Success(ProviderOutcome::LoadBalancerState {
                    code: Some(code.to_string()),
                })
            }
            ProviderRequest::CreateListener(q) => {
                self.listeners.push(q);
                if self.should_fail("listener", self.listeners.len() - 1) {
                    return injected();
                }
                ProviderEvent::Success(ProviderOutcome::ListenerCreated)
            }
            ProviderRequest::AttachTargetGroups(q) => {
                self.attach.push(q);
                if self.should_fail("attach", self.attach.len() - 1) {
                    return injected();
                }
                ProviderEvent::Success(ProviderOutcome::TargetGroupsAttached)
            }
            ProviderRequest::ChangeRecordSet(q) => {
                self.records.push(q);
                if self.should_fail("record_set", self.records.len() - 1) {
                    return injected();
                }
                ProviderEvent::Success(ProviderOutcome::RecordSetChanged)
            }
        }
    }
}

fn config() -> DeployConfig {
    DeployConfig {
        image_id: "ami-0e94c086e49480566".to_string(),
        vpc_id: "vpc-031c620b47a9ea885".to_string(),
        vpc_zone_identifier: "subnet-07789005966d047bf".to_string(),
        public_subnets: vec![
            "subnet-040ebc679c54ecf38".to_string(),
            "subnet-0e22657a6f50a3235".to_string(),
        ],
        hosted_zone_id: "Z03309493AGZOVY2IU47X".to_string(),
        record_region: "us-west-1".to_string(),
    }
}

fn demo_input() -> DeployAWSInput {
    DeployAWSInput {
        flake_url: "github:org/repo".to_string(),
        instance_type: "t3.micro".to_string(),
        deployment_slug: "demo".to_string(),
        files: Some(vec![File {
            content: "hello".to_string(),
            path: "/etc/app/config".to_string(),
        }]),
        subdomain_prefix: "demo".to_string(),
        min_size: None,
        max_size: None,
        targets: Some(vec![Target {
            port: 8080,
            health_check_path: None,
            health_check_enabled: None,
        }]),
    }
}

/// Drives one request through the whole pipeline against the fake.
fn run(input: DeployAWSInput, fake: &mut FakeProvider) -> Result<DeployAWSOutput, Error> {
    let normalized = normalize(input)?;
    let mut pipeline = Pipeline::new(normalized, config());
    let mut action = StepAction::Call(pipeline.start());
    loop {
        match action {
            StepAction::Call(req) => {
                let ev = fake.perform(req);
                action = pipeline.step(ev)?;
            }
            StepAction::Sleep(_) => {
                fake.sleeps += 1;
                action = pipeline.step(ProviderEvent::Success(ProviderOutcome::Slept))?;
            }
            StepAction::Finished => return Ok(pipeline.finish()),
        }
    }
}

#[test]
fn end_to_end_single_target() {
    let mut fake = FakeProvider::new();
    let out = run(demo_input(), &mut fake).unwrap();
    assert_eq!(out.input.targets.len(), 1);
    assert_eq!(out.id.len(), 36);
    assert_eq!(fake.lt.len(), 1);
    assert_eq!(fake.asg.len(), 1);
    assert_eq!(fake.tg.len(), 1);
    assert_eq!(fake.sg.len(), 1);
    assert_eq!(fake.ingress.len(), 1);
    assert_eq!(fake.lb.len(), 1);
    assert_eq!(fake.listeners.len(), 1);
    assert_eq!(fake.attach.len(), 1);
    assert_eq!(fake.records.len(), 1);
    assert_eq!(fake.listeners[0].port, 8080);
    assert_eq!(fake.listeners[0].target_group_arn, fake.tg_arns_given[0]);
    assert_eq!(fake.listeners[0].protocol, "HTTP");
    assert_eq!(fake.listeners[0].action_type, "forward");
    assert_eq!(fake.listeners[0].load_balancer_arn, "arn:lb:1");
    assert_eq!(fake.records[0].record_name, "demo");
    assert_eq!(fake.records[0].record_type, "CNAME");
    assert_eq!(fake.records[0].action, "CREATE");
    assert_eq!(fake.records[0].ttl, 300);
    assert_eq!(fake.records[0].value, "lb.example.com");
    assert_eq!(fake.records[0].hosted_zone_id, "Z03309493AGZOVY2IU47X");
}

#[test]
fn launch_template_carries_compiled_user_data() {
    let mut fake = FakeProvider::new();
    run(demo_input(), &mut fake).unwrap();
    let lt = &fake.lt[0];
    assert_eq!(lt.launch_template_name, "demo");
    assert_eq!(lt.image_id, "ami-0e94c086e49480566");
    assert_eq!(lt.instance_type, "t3.micro");
    assert_eq!(lt.device_name, "/dev/xvda");
    assert_eq!(lt.volume_size, 100);
    assert_eq!(lt.volume_type, "gp3");
    assert!(lt.delete_on_termination);
    let script = format!(
        "#!/bin/bash\nmkdir -p /etc/app && echo {} | base64 -d > /etc/app/config\n\
         nixos-rebuild switch --impure --flake 'github:org/repo'\n",
        base64::engine::general_purpose::URL_SAFE.encode("hello")
    );
    assert_eq!(
        lt.user_data,
        base64::engine::general_purpose::URL_SAFE.encode(&script)
    );
}

#[test]
fn scaling_group_uses_slug_and_defaults() {
    let mut fake = FakeProvider::new();
    run(demo_input(), &mut fake).unwrap();
    let asg = &fake.asg[0];
    assert_eq!(asg.auto_scaling_group_name, "demo");
    assert_eq!(asg.launch_template_name, "demo");
    assert_eq!(asg.min_size, 1);
    assert_eq!(asg.max_size, 1);
    assert_eq!(asg.vpc_zone_identifier, "subnet-07789005966d047bf");
}

#[test]
fn one_target_group_and_listener_per_target() {
    let mut input = demo_input();
    input.targets = Some(vec![
        Target {
            port: 8080,
            health_check_path: Some("/health".to_string()),
            health_check_enabled: Some(true),
        },
        Target {
            port: 9090,
            health_check_path: None,
            health_check_enabled: None,
        },
        Target {
            port: 7070,
            health_check_path: None,
            health_check_enabled: Some(false),
        },
    ]);
    let mut fake = FakeProvider::new();
    run(input, &mut fake).unwrap();
    assert_eq!(fake.tg.len(), 3);
    assert_eq!(fake.listeners.len(), 3);
    let ports = [8080, 9090, 7070];
    for k in 0..3 {
        assert_eq!(fake.tg[k].port, ports[k]);
        assert_eq!(fake.tg[k].name, "demo");
        assert_eq!(fake.tg[k].protocol, "HTTP");
        assert_eq!(fake.tg[k].vpc_id, "vpc-031c620b47a9ea885");
        assert_eq!(fake.listeners[k].port, ports[k]);
        assert_eq!(fake.listeners[k].target_group_arn, fake.tg_arns_given[k]);
        assert_eq!(fake.ingress[k].from_port, ports[k]);
        assert_eq!(fake.ingress[k].to_port, ports[k]);
        assert_eq!(fake.ingress[k].ip_protocol, "TCP");
        assert_eq!(fake.ingress[k].cidr_ip, "0.0.0.0/0");
        assert_eq!(fake.ingress[k].group_id, "sg-123");
    }
    assert_eq!(fake.tg[0].health_check_path.as_deref(), Some("/health"));
    assert_eq!(fake.tg[0].health_check_enabled, Some(true));
    assert_eq!(fake.tg[1].health_check_path, None);
    assert_eq!(fake.tg[2].health_check_enabled, Some(false));
    assert_eq!(fake.attach.len(), 1);
    assert_eq!(fake.attach[0].auto_scaling_group_name, "demo");
    assert_eq!(fake.attach[0].target_group_arns, fake.tg_arns_given);
}

#[test]
fn load_balancer_uses_created_security_group() {
    let mut fake = FakeProvider::new();
    run(demo_input(), &mut fake).unwrap();
    let lb = &fake.lb[0];
    assert_eq!(lb.name, "demo");
    assert_eq!(
        lb.subnets,
        vec![
            "subnet-040ebc679c54ecf38".to_string(),
            "subnet-0e22657a6f50a3235".to_string()
        ]
    );
    assert_eq!(lb.security_groups, vec!["sg-123".to_string()]);
    assert_eq!(fake.sg[0].group_name, "demo");
    assert_eq!(fake.sg[0].description, "Security group for the deployment");
}

struct StageExpectation {
    kind: &'static str,
    index: usize,
    code: ErrorCode,
    /// Calls of each kind expected by the time the failure hits:
    /// (lt, asg, tg, sg, ingress, lb, describe, listeners, attach, records)
    counts: [usize; 10],
}

#[test]
fn failure_at_any_stage_stops_the_pipeline() {
    let two_targets = || {
        let mut input = demo_input();
        input.targets = Some(vec![
            Target {
                port: 8080,
                health_check_path: None,
                health_check_enabled: None,
            },
            Target {
                port: 9090,
                health_check_path: None,
                health_check_enabled: None,
            },
        ]);
        input
    };
    let cases = vec![
        StageExpectation {
            kind: "launch_template",
            index: 0,
            code: ErrorCode::LaunchTemplateCreationFailed,
            counts: [1, 0, 0, 0, 0, 0, 0, 0, 0, 0],
        },
        StageExpectation {
            kind: "auto_scaling_group",
            index: 0,
            code: ErrorCode::AutoScalingGroupCreationFailed,
            counts: [1, 1, 0, 0, 0, 0, 0, 0, 0, 0],
        },
        StageExpectation {
            kind: "target_group",
            index: 1,
            code: ErrorCode::TargetGroupCreationFailed,
            counts: [1, 1, 2, 0, 0, 0, 0, 0, 0, 0],
        },
        StageExpectation {
            kind: "security_group",
            index: 0,
            code: ErrorCode::SecurityGroupCreationFailed,
            counts: [1, 1, 2, 1, 0, 0, 0, 0, 0, 0],
        },
        StageExpectation {
            kind: "ingress",
            index: 1,
            code: ErrorCode::SecurityGroupIngressRulesAdditionFailed,
            counts: [1, 1, 2, 1, 2, 0, 0, 0, 0, 0],
        },
        StageExpectation {
            kind: "load_balancer",
            index: 0,
            code: ErrorCode::LoadBalancerCreationFailed,
            counts: [1, 1, 2, 1, 2, 1, 0, 0, 0, 0],
        },
        StageExpectation {
            kind: "describe",
            index: 0,
            code: ErrorCode::LoadBalancerStateCheckFailed,
            counts: [1, 1, 2, 1, 2, 1, 1, 0, 0, 0],
        },
        StageExpectation {
            kind: "listener",
            index: 1,
            code: ErrorCode::ListenerCreationFailed,
            counts: [1, 1, 2, 1, 2, 1, 1, 2, 0, 0],
        },
        StageExpectation {
            kind: "attach",
            index: 0,
            code: ErrorCode::TargetGroupAttachFailed,
            counts: [1, 1, 2, 1, 2, 1, 1, 2, 1, 0],
        },
        StageExpectation {
            kind: "record_set",
            index: 0,
            code: ErrorCode::RecordSetCreationFailed,
            counts: [1, 1, 2, 1, 2, 1, 1, 2, 1, 1],
        },
    ];
    for case in cases {
        let mut fake = FakeProvider::failing_at(case.kind, case.index);
        let e = run(two_targets(), &mut fake).unwrap_err();
        assert_eq!(e.code, case.code, "failing stage {}", case.kind);
        assert_eq!(e.status, 500);
        assert_eq!(e.message, "injected provider failure");
        let got = [
            fake.lt.len(),
            fake.asg.len(),
            fake.tg.len(),
            fake.sg.len(),
            fake.ingress.len(),
            fake.lb.len(),
            fake.describe.len(),
            fake.listeners.len(),
            fake.attach.len(),
            fake.records.len(),
        ];
        assert_eq!(got, case.counts, "call counts after failing {}", case.kind);
    }
}

#[test]
fn readiness_wait_stops_on_active() {
    let mut fake = FakeProvider::new();
    fake.active_on = 5;
    let out = run(demo_input(), &mut fake);
    assert!(out.is_ok());
    assert_eq!(fake.describe.len(), 5);
    assert_eq!(fake.sleeps, 4);
    assert_eq!(fake.listeners.len(), 1);
    assert_eq!(fake.describe[0].load_balancer_arns, vec!["arn:lb:1".to_string()]);
}

#[test]
fn readiness_wait_gives_up_after_100_polls_and_continues() {
    let mut fake = FakeProvider::new();
    fake.active_on = 0;
    let out = run(demo_input(), &mut fake);
    assert!(out.is_ok());
    assert_eq!(fake.describe.len(), 100);
    assert_eq!(fake.sleeps, 100);
    assert_eq!(fake.listeners.len(), 1);
    assert_eq!(fake.records.len(), 1);
}

#[test]
fn missing_target_group_identifier_fails_the_stage() {
    let mut fake = FakeProvider::new();
    fake.tg_without_arn = true;
    let e = run(demo_input(), &mut fake).unwrap_err();
    assert_eq!(e.code, ErrorCode::TargetGroupCreationFailed);
    assert_eq!(e.status, 500);
    assert_eq!(fake.sg.len(), 0);
}

#[test]
fn missing_security_group_identifier_fails_the_stage() {
    let mut fake = FakeProvider::new();
    fake.sg_without_id = true;
    let e = run(demo_input(), &mut fake).unwrap_err();
    assert_eq!(e.code, ErrorCode::SecurityGroupCreationFailed);
    assert_eq!(fake.ingress.len(), 0);
}

#[test]
fn missing_load_balancer_fields_fail_the_stage() {
    let mut fake = FakeProvider::new();
    fake.lb_without_fields = true;
    let e = run(demo_input(), &mut fake).unwrap_err();
    assert_eq!(e.code, ErrorCode::LoadBalancerCreationFailed);
    assert_eq!(fake.describe.len(), 0);
    assert_eq!(fake.listeners.len(), 0);
}

#[test]
fn identifiers_are_fresh_per_run() {
    let mut fake_one = FakeProvider::new();
    let mut fake_two = FakeProvider::new();
    let a = run(demo_input(), &mut fake_one).unwrap();
    let b = run(demo_input(), &mut fake_two).unwrap();
    assert_eq!(a.id.len(), 36);
    assert_eq!(b.id.len(), 36);
    assert_ne!(a.id, b.id);
}

#[test]
fn error_labels_match_their_codes() {
    let e = Error::new(ErrorCode::RecordSetCreationFailed, "x".to_string());
    assert_eq!(e.code_str(), "RecordSetCreationFailed");
    let e = Error::new(ErrorCode::LoadBalancerStateCheckFailed, "x".to_string());
    assert_eq!(e.code_str(), "LoadBalancerStateCheckFailed");
    let e = Error::new(ErrorCode::SecurityGroupIngressRulesAdditionFailed, "x".to_string());
    assert_eq!(e.code_str(), "SecurityGroupIngressRulesAdditionFailed");
}
