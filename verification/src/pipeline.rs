//! The provisioning pipeline: a strictly ordered state machine that turns
//! a normalized deployment request into the sequence of cloud calls that
//! provision it.
//!
//! The pipeline itself performs no cloud call. `start` hands the caller
//! the first request; the caller performs it and feeds the outcome back
//! into `step`, which decides the next request (or a sleep, during the
//! readiness wait) until the run completes or a stage fails. Any stage
//! failure aborts the remaining pipeline immediately: there is no retry,
//! and no teardown of resources created by earlier, already-succeeded
//! stages — a deliberate fidelity choice, so a late failure leaves the
//! earlier resources live in the provider account.

use vstd::prelude::*;
use vstd::pervasive::unreached;
use crate::error::{Error, ErrorCode, FAILURE_STATUS};
use crate::request::{DeployAWSOutput, NormalizedRequest, normalized_wf};
use crate::userdata::{b64_url_of, boot_script, compile_user_data};

verus! {

/// How many times the readiness wait may poll the load balancer.
pub const MAX_POLLS: usize = 100;

/// Seconds between two readiness polls.
pub const POLL_INTERVAL_SECS: u64 = 3;

/// Size of the fixed root volume, in GiB.
pub const ROOT_VOLUME_SIZE: i64 = 100;

/// Time-to-live of the DNS record, in seconds.
pub const RECORD_TTL: i64 = 300;

/// Environment-sourced values the pipeline depends on but does not
/// compute: network, subnets, hosted zone, machine image and the region
/// written into the DNS record. The caller resolves them at startup.
pub struct DeployConfig {
    pub image_id: String,
    pub vpc_id: String,
    pub vpc_zone_identifier: String,
    pub public_subnets: Vec<String>,
    pub hosted_zone_id: String,
    pub record_region: String,
}

/// What a launch-template creation asks for: name, image, instance size,
/// the fixed root volume and the transport-encoded boot script.
pub struct LaunchTemplateReq {
    pub launch_template_name: String,
    pub image_id: String,
    pub instance_type: String,
    pub device_name: String,
    pub volume_size: i64,
    pub volume_type: String,
    pub delete_on_termination: bool,
    pub user_data: String,
}

/// What an auto-scaling-group creation asks for.
pub struct AsgReq {
    pub auto_scaling_group_name: String,
    pub launch_template_name: String,
    pub min_size: i64,
    pub max_size: i64,
    pub vpc_zone_identifier: String,
}

/// What one target-group creation asks for.
pub struct TargetGroupReq {
    pub name: String,
    pub protocol: String,
    pub port: i64,
    pub vpc_id: String,
    pub health_check_path: Option<String>,
    pub health_check_enabled: Option<bool>,
}

/// What the security-group creation asks for.
pub struct SecurityGroupReq {
    pub group_name: String,
    pub description: String,
    pub vpc_id: String,
}

/// One ingress rule: TCP from anywhere to one target port.
pub struct IngressReq {
    pub group_id: String,
    pub from_port: i64,
    pub to_port: i64,
    pub ip_protocol: String,
    pub cidr_ip: String,
}

/// What the load-balancer creation asks for.
pub struct LoadBalancerReq {
    pub name: String,
    pub subnets: Vec<String>,
    pub security_groups: Vec<String>,
}

/// One readiness poll of the load balancer.
pub struct DescribeLoadBalancersReq {
    pub load_balancer_arns: Vec<String>,
}

/// One listener: forwards one port of the load balancer to one target
/// group.
pub struct ListenerReq {
    pub load_balancer_arn: String,
    pub target_group_arn: String,
    pub action_type: String,
    pub port: i64,
    pub protocol: String,
}

/// Attaches the full set of target groups to the scaling group.
pub struct AttachTargetGroupsReq {
    pub auto_scaling_group_name: String,
    pub target_group_arns: Vec<String>,
}

/// One change batch with one CREATE action: a record pointing the
/// subdomain at the load balancer's DNS name.
pub struct RecordSetReq {
    pub hosted_zone_id: String,
    pub action: String,
    pub record_name: String,
    pub record_type: String,
    pub ttl: i64,
    pub region: String,
    pub value: String,
}

/// A cloud call the pipeline asks the caller to perform.
pub enum ProviderRequest {
    CreateLaunchTemplate(LaunchTemplateReq),
    CreateAutoScalingGroup(AsgReq),
    CreateTargetGroup(TargetGroupReq),
    CreateSecurityGroup(SecurityGroupReq),
    AuthorizeIngress(IngressReq),
    CreateLoadBalancer(LoadBalancerReq),
    DescribeLoadBalancers(DescribeLoadBalancersReq),
    CreateListener(ListenerReq),
    AttachTargetGroups(AttachTargetGroupsReq),
    ChangeRecordSet(RecordSetReq),
}

/// What the caller reports back when a cloud call succeeded: exactly the
/// response fields the pipeline consumes. Fields the provider may omit
/// stay optional; the pipeline decides what a missing one means.
pub enum ProviderOutcome {
    LaunchTemplateCreated,
    AutoScalingGroupCreated,
    TargetGroupCreated { target_group_arn: Option<String> },
    SecurityGroupCreated { group_id: Option<String> },
    IngressAuthorized,
    LoadBalancerCreated { dns_name: Option<String>, load_balancer_arn: Option<String> },
    LoadBalancerState { code: Option<String> },
    Slept,
    ListenerCreated,
    TargetGroupsAttached,
    RecordSetChanged,
}

/// The result of performing what the pipeline asked for: the call's
/// outcome, or the provider's error message verbatim.
pub enum ProviderEvent {
    Success(ProviderOutcome),
    Failure(String),
}

/// What the caller must do next: perform a cloud call, sleep between two
/// readiness polls, or stop — the pipeline has completed.
pub enum StepAction {
    Call(ProviderRequest),
    Sleep(u64),
    Finished,
}

/// Which call is in flight, or which terminal state the run reached.
#[derive(Clone, Copy, Debug, PartialEq, Eq, Structural)]
pub enum Stage {
    LaunchTemplate,
    AutoScalingGroup,
    TargetGroups,
    SecurityGroup,
    Ingress,
    LoadBalancer,
    ReadinessPoll,
    ReadinessSleep,
    Listeners,
    AttachTargetGroups,
    RecordSet,
    Completed,
    Failed,
}

/// The error tag a failure of the in-flight call surfaces as.
pub open spec fn stage_error_code(stage: Stage) -> ErrorCode {
    match stage {
        Stage::LaunchTemplate => ErrorCode::LaunchTemplateCreationFailed,
        Stage::AutoScalingGroup => ErrorCode::AutoScalingGroupCreationFailed,
        Stage::TargetGroups => ErrorCode::TargetGroupCreationFailed,
        Stage::SecurityGroup => ErrorCode::SecurityGroupCreationFailed,
        Stage::Ingress => ErrorCode::SecurityGroupIngressRulesAdditionFailed,
        Stage::LoadBalancer => ErrorCode::LoadBalancerCreationFailed,
        Stage::ReadinessPoll => ErrorCode::LoadBalancerStateCheckFailed,
        Stage::ReadinessSleep => ErrorCode::LoadBalancerStateCheckFailed,
        Stage::Listeners => ErrorCode::ListenerCreationFailed,
        Stage::AttachTargetGroups => ErrorCode::TargetGroupAttachFailed,
        Stage::RecordSet => ErrorCode::RecordSetCreationFailed,
        Stage::Completed => ErrorCode::ValidationError,
        Stage::Failed => ErrorCode::ValidationError,
    }
}

/// The event kinds a stage can be answered with: the matching outcome or
/// a provider failure; a sleep is answered only by `Slept` and cannot
/// fail; terminal stages take no event.
pub open spec fn expected_event(stage: Stage, ev: ProviderEvent) -> bool {
    match ev {
        ProviderEvent::Failure(_) => !(stage is ReadinessSleep) && !(stage is Completed) && !(
        stage is Failed),
        ProviderEvent::Success(o) => match stage {
            Stage::LaunchTemplate => o is LaunchTemplateCreated,
            Stage::AutoScalingGroup => o is AutoScalingGroupCreated,
            Stage::TargetGroups => o is TargetGroupCreated,
            Stage::SecurityGroup => o is SecurityGroupCreated,
            Stage::Ingress => o is IngressAuthorized,
            Stage::LoadBalancer => o is LoadBalancerCreated,
            Stage::ReadinessPoll => o is LoadBalancerState,
            Stage::ReadinessSleep => o is Slept,
            Stage::Listeners => o is ListenerCreated,
            Stage::AttachTargetGroups => o is TargetGroupsAttached,
            Stage::RecordSet => o is RecordSetChanged,
            Stage::Completed => false,
            Stage::Failed => false,
        },
    }
}

/// The character sequences of an optional string.
pub open spec fn opt_str_view(o: Option<String>) -> Option<Seq<char>> {
    match o {
        Some(s) => Some(s@),
        None => None,
    }
}

/// The launch-template request for a given deployment: named after the
/// slug, the configured image, the requested instance size, the fixed
/// root volume, and the compiled boot script as user data.
pub open spec fn is_launch_template_req(
    q: LaunchTemplateReq,
    req: NormalizedRequest,
    config: DeployConfig,
) -> bool {
    &&& q.launch_template_name@ == req.deployment_slug@
    &&& q.image_id@ == config.image_id@
    &&& q.instance_type@ == req.instance_type@
    &&& q.device_name@ == "/dev/xvda"@
    &&& q.volume_size == ROOT_VOLUME_SIZE
    &&& q.volume_type@ == "gp3"@
    &&& q.delete_on_termination == true
    &&& q.user_data@ == b64_url_of(boot_script(req.files@, req.flake_url@))
}

/// The scaling-group request: named after the slug, referencing the
/// launch template by that same name, with the normalized bounds.
pub open spec fn is_asg_req(q: AsgReq, req: NormalizedRequest, config: DeployConfig) -> bool {
    &&& q.auto_scaling_group_name@ == req.deployment_slug@
    &&& q.launch_template_name@ == req.deployment_slug@
    &&& q.min_size == req.min_size
    &&& q.max_size == req.max_size
    &&& q.vpc_zone_identifier@ == config.vpc_zone_identifier@
}

/// The target-group request for target `i`: HTTP on that target's port,
/// in the configured network, with the target's health-check settings.
pub open spec fn is_tg_req(
    q: TargetGroupReq,
    req: NormalizedRequest,
    config: DeployConfig,
    i: int,
) -> bool {
    &&& q.name@ == req.deployment_slug@
    &&& q.protocol@ == "HTTP"@
    &&& q.port == req.targets@[i].port
    &&& q.vpc_id@ == config.vpc_id@
    &&& opt_str_view(q.health_check_path) == opt_str_view(req.targets@[i].health_check_path)
    &&& q.health_check_enabled == req.targets@[i].health_check_enabled
}

/// The security-group request: named after the slug, in the configured
/// network.
pub open spec fn is_sg_req(
    q: SecurityGroupReq,
    req: NormalizedRequest,
    config: DeployConfig,
) -> bool {
    &&& q.group_name@ == req.deployment_slug@
    &&& q.description@ == "Security group for the deployment"@
    &&& q.vpc_id@ == config.vpc_id@
}

/// The ingress rule for target `i`: TCP from anywhere, from-port equal to
/// to-port equal to the target's port, on the created security group.
pub open spec fn is_ingress_req(
    q: IngressReq,
    sg_id: Seq<char>,
    req: NormalizedRequest,
    i: int,
) -> bool {
    &&& q.group_id@ == sg_id
    &&& q.from_port == req.targets@[i].port
    &&& q.to_port == req.targets@[i].port
    &&& q.ip_protocol@ == "TCP"@
    &&& q.cidr_ip@ == "0.0.0.0/0"@
}

/// The load-balancer request: named after the slug, on the configured
/// public subnets, guarded by exactly the created security group.
pub open spec fn is_lb_req(
    q: LoadBalancerReq,
    sg_id: Seq<char>,
    req: NormalizedRequest,
    config: DeployConfig,
) -> bool {
    &&& q.name@ == req.deployment_slug@
    &&& q.subnets@ == config.public_subnets@
    &&& q.security_groups@.len() == 1
    &&& q.security_groups@[0]@ == sg_id
}

/// One readiness poll: asks after exactly the created load balancer.
pub open spec fn is_describe_req(q: DescribeLoadBalancersReq, lb_arn: Seq<char>) -> bool {
    &&& q.load_balancer_arns@.len() == 1
    &&& q.load_balancer_arns@[0]@ == lb_arn
}

/// The listener request for binding `k`: forwards the target's port of
/// the created load balancer to the target group created for that same
/// index.
pub open spec fn is_listener_req(
    q: ListenerReq,
    lb_arn: Seq<char>,
    tg_arn: Seq<char>,
    port: i64,
) -> bool {
    &&& q.load_balancer_arn@ == lb_arn
    &&& q.target_group_arn@ == tg_arn
    &&& q.action_type@ == "forward"@
    &&& q.port == port
    &&& q.protocol@ == "HTTP"@
}

/// The attach request: the full set of created target-group identifiers,
/// in creation order, onto the scaling group named after the slug.
pub open spec fn is_attach_req(
    q: AttachTargetGroupsReq,
    req: NormalizedRequest,
    arns: Seq<String>,
) -> bool {
    &&& q.auto_scaling_group_name@ == req.deployment_slug@
    &&& q.target_group_arns@ == arns
}

/// The DNS request: one CREATE of a CNAME named after the subdomain
/// prefix, pointing at the load balancer's DNS name, with the fixed TTL.
pub open spec fn is_record_req(
    q: RecordSetReq,
    req: NormalizedRequest,
    config: DeployConfig,
    lb_dns: Seq<char>,
) -> bool {
    &&& q.hosted_zone_id@ == config.hosted_zone_id@
    &&& q.action@ == "CREATE"@
    &&& q.record_name@ == req.subdomain_prefix@
    &&& q.record_type@ == "CNAME"@
    &&& q.ttl == RECORD_TTL
    &&& q.region@ == config.record_region@
    &&& q.value@ == lb_dns
}

/// The state of one provisioning run: the request and configuration it
/// works from, which call is in flight, and what earlier stages returned.
/// The ghost fields count the calls the pipeline has asked for, and
/// record which target-group identifier each listener referenced.
pub struct Pipeline {
    pub req: NormalizedRequest,
    pub config: DeployConfig,
    pub stage: Stage,
    pub tg_arns: Vec<String>,
    pub ingress_done: usize,
    pub listeners_done: usize,
    pub sg_id: Option<String>,
    pub lb_dns: Option<String>,
    pub lb_arn: Option<String>,
    pub polls: usize,
    pub issued_tg: Ghost<int>,
    pub issued_listeners: Ghost<int>,
    pub issued_polls: Ghost<int>,
    pub listener_arns_used: Ghost<Seq<Seq<char>>>,
}

impl Pipeline {
    /// How many targets the normalized request names.
    pub open spec fn n_targets(self) -> int {
        self.req.targets@.len() as int
    }

    /// All target groups are created: one identifier per target, from
    /// exactly one creation call per target.
    pub open spec fn tg_arns_complete(self) -> bool {
        &&& self.tg_arns@.len() == self.n_targets()
        &&& self.issued_tg@ == self.n_targets()
    }

    /// Every listener issued so far referenced the target-group
    /// identifier created for its own index.
    pub open spec fn listeners_link_ok(self) -> bool {
        forall|k: int|
            0 <= k < self.listener_arns_used@.len() ==> self.listener_arns_used@[k]
                == #[trigger] self.tg_arns@[k]@
    }

    /// The run is over, successfully or not.
    pub open spec fn is_terminal(self) -> bool {
        self.stage is Completed || self.stage is Failed
    }

    /// Well-formedness of a run: the request is normalized, the readiness
    /// wait never exceeds its budget, each listener references its own
    /// target group, and the progress counters agree with the stage.
    pub open spec fn wf(self) -> bool {
        let n = self.n_targets();
        &&& normalized_wf(self.req)
        &&& self.listener_arns_used@.len() == self.issued_listeners@
        &&& self.listener_arns_used@.len() <= self.tg_arns@.len()
        &&& self.listeners_link_ok()
        &&& self.issued_polls@ <= MAX_POLLS
        &&& self.polls <= MAX_POLLS
        &&& self.tg_arns@.len() <= n
        &&& match self.stage {
            Stage::LaunchTemplate | Stage::AutoScalingGroup => {
                &&& self.tg_arns@.len() == 0
                &&& self.issued_tg@ == 0
                &&& self.issued_listeners@ == 0
                &&& self.issued_polls@ == 0
                &&& self.ingress_done == 0
                &&& self.listeners_done == 0
                &&& self.sg_id is None
                &&& self.lb_arn is None
                &&& self.lb_dns is None
                &&& self.polls == 0
            },
            Stage::TargetGroups => {
                &&& self.tg_arns@.len() < n
                &&& self.issued_tg@ == self.tg_arns@.len() + 1
                &&& self.issued_listeners@ == 0
                &&& self.issued_polls@ == 0
                &&& self.ingress_done == 0
                &&& self.listeners_done == 0
                &&& self.sg_id is None
                &&& self.lb_arn is None
                &&& self.lb_dns is None
                &&& self.polls == 0
            },
            Stage::SecurityGroup => {
                &&& self.tg_arns_complete()
                &&& self.issued_listeners@ == 0
                &&& self.issued_polls@ == 0
                &&& self.ingress_done == 0
                &&& self.listeners_done == 0
                &&& self.sg_id is None
                &&& self.lb_arn is None
                &&& self.lb_dns is None
                &&& self.polls == 0
            },
            Stage::Ingress => {
                &&& self.tg_arns_complete()
                &&& self.sg_id is Some
                &&& (self.ingress_done as int) < n
                &&& self.issued_listeners@ == 0
                &&& self.issued_polls@ == 0
                &&& self.listeners_done == 0
                &&& self.lb_arn is None
                &&& self.lb_dns is None
                &&& self.polls == 0
            },
            Stage::LoadBalancer => {
                &&& self.tg_arns_complete()
                &&& self.sg_id is Some
                &&& self.ingress_done as int == n
                &&& self.issued_listeners@ == 0
                &&& self.issued_polls@ == 0
                &&& self.listeners_done == 0
                &&& self.lb_arn is None
                &&& self.lb_dns is None
                &&& self.polls == 0
            },
            Stage::ReadinessPoll => {
                &&& self.tg_arns_complete()
                &&& self.sg_id is Some
                &&& self.lb_arn is Some
                &&& self.lb_dns is Some
                &&& self.ingress_done as int == n
                &&& self.listeners_done == 0
                &&& self.issued_listeners@ == 0
                &&& self.polls < MAX_POLLS
                &&& self.issued_polls@ == self.polls + 1
            },
            Stage::ReadinessSleep => {
                &&& self.tg_arns_complete()
                &&& self.sg_id is Some
                &&& self.lb_arn is Some
                &&& self.lb_dns is Some
                &&& self.ingress_done as int == n
                &&& self.listeners_done == 0
                &&& self.issued_listeners@ == 0
                &&& 1 <= self.polls <= MAX_POLLS
                &&& self.issued_polls@ == self.polls
            },
            Stage::Listeners => {
                &&& self.tg_arns_complete()
                &&& self.sg_id is Some
                &&& self.lb_arn is Some
                &&& self.lb_dns is Some
                &&& self.ingress_done as int == n
                &&& (self.listeners_done as int) < n
                &&& self.issued_listeners@ == self.listeners_done + 1
            },
            Stage::AttachTargetGroups | Stage::RecordSet | Stage::Completed => {
                &&& self.tg_arns_complete()
                &&& self.sg_id is Some
                &&& self.lb_arn is Some
                &&& self.lb_dns is Some
                &&& self.ingress_done as int == n
                &&& self.listeners_done as int == n
                &&& self.issued_listeners@ == n
            },
            Stage::Failed => true,
        }
    }

    /// How `step` transforms one run: what the next state is, which
    /// request (or sleep, or completion) comes back, and how the progress
    /// record advances — one case per stage and event.
    pub open spec fn step_rel(
        pre: Pipeline,
        ev: ProviderEvent,
        post: Pipeline,
        r: Result<StepAction, Error>,
    ) -> bool {
        &&& post.req == pre.req
        &&& post.config == pre.config
        &&& match ev {
            ProviderEvent::Failure(msg) => {
                &&& post.stage is Failed
                &&& r matches Err(e) && e.code == stage_error_code(pre.stage) && e.status
                    == FAILURE_STATUS && e.message == msg
                &&& post.tg_arns == pre.tg_arns
                &&& post.issued_tg == pre.issued_tg
                &&& post.issued_listeners == pre.issued_listeners
                &&& post.issued_polls == pre.issued_polls
                &&& post.listener_arns_used == pre.listener_arns_used
            },
            ProviderEvent::Success(o) => match pre.stage {
                Stage::LaunchTemplate => {
                    &&& post.stage is AutoScalingGroup
                    &&& r matches Ok(StepAction::Call(ProviderRequest::CreateAutoScalingGroup(q)))
                        && is_asg_req(q, pre.req, pre.config)
                    &&& post.tg_arns == pre.tg_arns
                    &&& post.issued_tg == pre.issued_tg
                    &&& post.issued_listeners == pre.issued_listeners
                    &&& post.issued_polls == pre.issued_polls
                    &&& post.listener_arns_used == pre.listener_arns_used
                },
                Stage::AutoScalingGroup => {
                    &&& post.stage is TargetGroups
                    &&& r matches Ok(StepAction::Call(ProviderRequest::CreateTargetGroup(q)))
                        && is_tg_req(q, pre.req, pre.config, 0)
                    &&& post.tg_arns == pre.tg_arns
                    &&& post.issued_tg@ == pre.issued_tg@ + 1
                    &&& post.issued_listeners == pre.issued_listeners
                    &&& post.issued_polls == pre.issued_polls
                    &&& post.listener_arns_used == pre.listener_arns_used
                },
                Stage::TargetGroups => match o {
                    ProviderOutcome::TargetGroupCreated { target_group_arn } => {
                        &&& post.issued_listeners == pre.issued_listeners
                        &&& post.issued_polls == pre.issued_polls
                        &&& post.listener_arns_used == pre.listener_arns_used
                        &&& match target_group_arn {
                            None => {
                                &&& post.stage is Failed
                                &&& post.tg_arns == pre.tg_arns
                                &&& post.issued_tg == pre.issued_tg
                                &&& r matches Err(e) && e.code
                                    == ErrorCode::TargetGroupCreationFailed && e.status
                                    == FAILURE_STATUS
                            },
                            Some(arn) => {
                                &&& post.tg_arns@ == pre.tg_arns@.push(arn)
                                &&& if pre.tg_arns@.len() + 1 < pre.req.targets@.len() {
                                    &&& post.stage is TargetGroups
                                    &&& post.issued_tg@ == pre.issued_tg@ + 1
                                    &&& r matches Ok(StepAction::Call(
                                        ProviderRequest::CreateTargetGroup(q),
                                    )) && is_tg_req(
                                        q,
                                        pre.req,
                                        pre.config,
                                        pre.tg_arns@.len() as int + 1,
                                    )
                                } else {
                                    &&& post.stage is SecurityGroup
                                    &&& post.issued_tg == pre.issued_tg
                                    &&& r matches Ok(StepAction::Call(
                                        ProviderRequest::CreateSecurityGroup(q),
                                    )) && is_sg_req(q, pre.req, pre.config)
                                }
                            },
                        }
                    },
                    _ => false,
                },
                Stage::SecurityGroup => match o {
                    ProviderOutcome::SecurityGroupCreated { group_id } => {
                        &&& post.tg_arns == pre.tg_arns
                        &&& post.issued_tg == pre.issued_tg
                        &&& post.issued_listeners == pre.issued_listeners
                        &&& post.issued_polls == pre.issued_polls
                        &&& post.listener_arns_used == pre.listener_arns_used
                        &&& match group_id {
                            None => {
                                &&& post.stage is Failed
                                &&& r matches Err(e) && e.code
                                    == ErrorCode::SecurityGroupCreationFailed && e.status
                                    == FAILURE_STATUS
                            },
                            Some(g) => {
                                &&& post.stage is Ingress
                                &&& opt_str_view(post.sg_id) == Some(g@)
                                &&& r matches Ok(StepAction::Call(
                                    ProviderRequest::AuthorizeIngress(q),
                                )) && is_ingress_req(q, g@, pre.req, 0)
                            },
                        }
                    },
                    _ => false,
                },
                Stage::Ingress => {
                    &&& post.tg_arns == pre.tg_arns
                    &&& post.issued_tg == pre.issued_tg
                    &&& post.issued_listeners == pre.issued_listeners
                    &&& post.issued_polls == pre.issued_polls
                    &&& post.listener_arns_used == pre.listener_arns_used
                    &&& post.sg_id == pre.sg_id
                    &&& post.ingress_done == pre.ingress_done + 1
                    &&& if pre.ingress_done + 1 < pre.req.targets@.len() {
                        &&& post.stage is Ingress
                        &&& r matches Ok(StepAction::Call(ProviderRequest::AuthorizeIngress(q)))
                            && is_ingress_req(
                            q,
                            pre.sg_id->0@,
                            pre.req,
                            pre.ingress_done + 1,
                        )
                    } else {
                        &&& post.stage is LoadBalancer
                        &&& r matches Ok(StepAction::Call(ProviderRequest::CreateLoadBalancer(q)))
                            && is_lb_req(q, pre.sg_id->0@, pre.req, pre.config)
                    }
                },
                Stage::LoadBalancer => match o {
                    ProviderOutcome::LoadBalancerCreated { dns_name, load_balancer_arn } => {
                        &&& post.tg_arns == pre.tg_arns
                        &&& post.issued_tg == pre.issued_tg
                        &&& post.issued_listeners == pre.issued_listeners
                        &&& post.listener_arns_used == pre.listener_arns_used
                        &&& if dns_name is Some && load_balancer_arn is Some {
                            &&& post.stage is ReadinessPoll
                            &&& opt_str_view(post.lb_dns) == Some(dns_name->0@)
                            &&& opt_str_view(post.lb_arn) == Some(load_balancer_arn->0@)
                            &&& post.polls == 0
                            &&& post.issued_polls@ == pre.issued_polls@ + 1
                            &&& r matches Ok(StepAction::Call(
                                ProviderRequest::DescribeLoadBalancers(q),
                            )) && is_describe_req(q, load_balancer_arn->0@)
                        } else {
                            &&& post.stage is Failed
                            &&& post.issued_polls == pre.issued_polls
                            &&& r matches Err(e) && e.code == ErrorCode::LoadBalancerCreationFailed
                                && e.status == FAILURE_STATUS
                        }
                    },
                    _ => false,
                },
                Stage::ReadinessPoll => match o {
                    ProviderOutcome::LoadBalancerState { code } => {
                        &&& post.tg_arns == pre.tg_arns
                        &&& post.issued_tg == pre.issued_tg
                        &&& post.issued_polls == pre.issued_polls
                        &&& post.lb_arn == pre.lb_arn
                        &&& post.lb_dns == pre.lb_dns
                        &&& post.polls == pre.polls + 1
                        &&& if opt_str_view(code) == Some("active"@) {
                            &&& post.stage is Listeners
                            &&& post.listeners_done == 0
                            &&& post.issued_listeners@ == 1
                            &&& post.listener_arns_used@ == pre.listener_arns_used@.push(
                                pre.tg_arns@[0]@,
                            )
                            &&& r matches Ok(StepAction::Call(ProviderRequest::CreateListener(q)))
                                && is_listener_req(
                                q,
                                pre.lb_arn->0@,
                                pre.tg_arns@[0]@,
                                pre.req.targets@[0].port,
                            )
                        } else {
                            &&& post.stage is ReadinessSleep
                            &&& post.issued_listeners == pre.issued_listeners
                            &&& post.listener_arns_used == pre.listener_arns_used
                            &&& r matches Ok(StepAction::Sleep(s)) && s == POLL_INTERVAL_SECS
                        }
                    },
                    _ => false,
                },
                Stage::ReadinessSleep => {
                    &&& post.tg_arns == pre.tg_arns
                    &&& post.issued_tg == pre.issued_tg
                    &&& post.lb_arn == pre.lb_arn
                    &&& post.lb_dns == pre.lb_dns
                    &&& post.polls == pre.polls
                    &&& if (pre.polls as int) < MAX_POLLS {
                        &&& post.stage is ReadinessPoll
                        &&& post.issued_polls@ == pre.issued_polls@ + 1
                        &&& post.issued_listeners == pre.issued_listeners
                        &&& post.listener_arns_used == pre.listener_arns_used
                        &&& r matches Ok(StepAction::Call(
                            ProviderRequest::DescribeLoadBalancers(q),
                        )) && is_describe_req(q, pre.lb_arn->0@)
                    } else {
                        &&& post.stage is Listeners
                        &&& post.listeners_done == 0
                        &&& post.issued_polls == pre.issued_polls
                        &&& post.issued_listeners@ == 1
                        &&& post.listener_arns_used@ == pre.listener_arns_used@.push(
                            pre.tg_arns@[0]@,
                        )
                        &&& r matches Ok(StepAction::Call(ProviderRequest::CreateListener(q)))
                            && is_listener_req(
                            q,
                            pre.lb_arn->0@,
                            pre.tg_arns@[0]@,
                            pre.req.targets@[0].port,
                        )
                    }
                },
                Stage::Listeners => {
                    &&& post.tg_arns == pre.tg_arns
                    &&& post.issued_tg == pre.issued_tg
                    &&& post.issued_polls == pre.issued_polls
                    &&& post.lb_arn == pre.lb_arn
                    &&& post.lb_dns == pre.lb_dns
                    &&& post.listeners_done == pre.listeners_done + 1
                    &&& if pre.listeners_done + 1 < pre.req.targets@.len() {
                        &&& post.stage is Listeners
                        &&& post.issued_listeners@ == pre.issued_listeners@ + 1
                        &&& post.listener_arns_used@ == pre.listener_arns_used@.push(
                            pre.tg_arns@[pre.listeners_done + 1]@,
                        )
                        &&& r matches Ok(StepAction::Call(ProviderRequest::CreateListener(q)))
                            && is_listener_req(
                            q,
                            pre.lb_arn->0@,
                            pre.tg_arns@[pre.listeners_done + 1]@,
                            pre.req.targets@[pre.listeners_done + 1].port,
                        )
                    } else {
                        &&& post.stage is AttachTargetGroups
                        &&& post.issued_listeners == pre.issued_listeners
                        &&& post.listener_arns_used == pre.listener_arns_used
                        &&& r matches Ok(StepAction::Call(ProviderRequest::AttachTargetGroups(q)))
                            && is_attach_req(q, pre.req, pre.tg_arns@)
                    }
                },
                Stage::AttachTargetGroups => {
                    &&& post.tg_arns == pre.tg_arns
                    &&& post.issued_tg == pre.issued_tg
                    &&& post.issued_listeners == pre.issued_listeners
                    &&& post.issued_polls == pre.issued_polls
                    &&& post.listener_arns_used == pre.listener_arns_used
                    &&& post.stage is RecordSet
                    &&& r matches Ok(StepAction::Call(ProviderRequest::ChangeRecordSet(q)))
                        && is_record_req(q, pre.req, pre.config, pre.lb_dns->0@)
                },
                Stage::RecordSet => {
                    &&& post.tg_arns == pre.tg_arns
                    &&& post.issued_tg == pre.issued_tg
                    &&& post.issued_listeners == pre.issued_listeners
                    &&& post.issued_polls == pre.issued_polls
                    &&& post.listener_arns_used == pre.listener_arns_used
                    &&& post.stage is Completed
                    &&& r matches Ok(StepAction::Finished)
                },
                Stage::Completed => false,
                Stage::Failed => false,
            },
        }
    }
}

/// Clones an optional string, keeping its characters.
fn clone_opt_string(o: &Option<String>) -> (r: Option<String>)
    ensures
        opt_str_view(r) == opt_str_view(*o),
{
    match o {
        Some(s) => Some(s.clone()),
        None => None,
    }
}

/// Clones a vector of strings, keeping order and contents.
fn clone_string_vec(v: &Vec<String>) -> (r: Vec<String>)
    ensures
        r@ == v@,
{
    let mut r: Vec<String> = Vec::new();
    let mut i: usize = 0;
    while i < v.len()
        invariant
            i <= v@.len(),
            r@ == v@.take(i as int),
        decreases v@.len() - i,
    {
        let s = v[i].clone();
        r.push(s);
        proof {
            assert(r@ =~= v@.take(i as int + 1));
        }
        i = i + 1;
    }
    proof {
        assert(v@.take(v@.len() as int) =~= v@);
    }
    r
}

impl Pipeline {
    /// Sets up a run for a normalized request and resolved configuration;
    /// the launch-template creation is the first call in flight once
    /// `start` has been asked for it.
    pub fn new(req: NormalizedRequest, config: DeployConfig) -> (p: Pipeline)
        requires
            normalized_wf(req),
        ensures
            p.wf(),
            p.stage is LaunchTemplate,
            p.req == req,
            p.config == config,
            p.issued_tg@ == 0,
            p.issued_listeners@ == 0,
            p.issued_polls@ == 0,
    {
        Pipeline {
            req,
            config,
            stage: Stage::LaunchTemplate,
            tg_arns: Vec::new(),
            ingress_done: 0,
            listeners_done: 0,
            sg_id: None,
            lb_dns: None,
            lb_arn: None,
            polls: 0,
            issued_tg: Ghost(0),
            issued_listeners: Ghost(0),
            issued_polls: Ghost(0),
            listener_arns_used: Ghost(Seq::empty()),
        }
    }

    /// The first call of every run: create the launch template, carrying
    /// the compiled boot script as user data.
    pub fn start(&self) -> (r: ProviderRequest)
        requires
            self.wf(),
            self.stage is LaunchTemplate,
        ensures
            r matches ProviderRequest::CreateLaunchTemplate(q) && is_launch_template_req(
                q,
                self.req,
                self.config,
            ),
    {
        let user_data = compile_user_data(&self.req.files, self.req.flake_url.as_str());
        ProviderRequest::CreateLaunchTemplate(LaunchTemplateReq {
            launch_template_name: self.req.deployment_slug.clone(),
            image_id: self.config.image_id.clone(),
            instance_type: self.req.instance_type.clone(),
            device_name: "/dev/xvda".to_owned(),
            volume_size: ROOT_VOLUME_SIZE,
            volume_type: "gp3".to_owned(),
            delete_on_termination: true,
            user_data,
        })
    }

    fn make_asg_req(&self) -> (q: AsgReq)
        ensures
            is_asg_req(q, self.req, self.config),
    {
        AsgReq {
            auto_scaling_group_name: self.req.deployment_slug.clone(),
            launch_template_name: self.req.deployment_slug.clone(),
            min_size: self.req.min_size,
            max_size: self.req.max_size,
            vpc_zone_identifier: self.config.vpc_zone_identifier.clone(),
        }
    }

    fn make_tg_req(&self, i: usize) -> (q: TargetGroupReq)
        requires
            i < self.req.targets@.len(),
        ensures
            is_tg_req(q, self.req, self.config, i as int),
    {
        let t = &self.req.targets[i];
        TargetGroupReq {
            name: self.req.deployment_slug.clone(),
            protocol: "HTTP".to_owned(),
            port: t.port,
            vpc_id: self.config.vpc_id.clone(),
            health_check_path: clone_opt_string(&t.health_check_path),
            health_check_enabled: t.health_check_enabled,
        }
    }

    fn make_sg_req(&self) -> (q: SecurityGroupReq)
        ensures
            is_sg_req(q, self.req, self.config),
    {
        SecurityGroupReq {
            group_name: self.req.deployment_slug.clone(),
            description: "Security group for the deployment".to_owned(),
            vpc_id: self.config.vpc_id.clone(),
        }
    }

    fn make_ingress_req(&self, i: usize) -> (q: IngressReq)
        requires
            self.sg_id is Some,
            i < self.req.targets@.len(),
        ensures
            is_ingress_req(q, self.sg_id->0@, self.req, i as int),
    {
        let g = match &self.sg_id {
            Some(g) => g.clone(),
            None => unreached(),
        };
        let t = &self.req.targets[i];
        IngressReq {
            group_id: g,
            from_port: t.port,
            to_port: t.port,
            ip_protocol: "TCP".to_owned(),
            cidr_ip: "0.0.0.0/0".to_owned(),
        }
    }

    fn make_lb_req(&self) -> (q: LoadBalancerReq)
        requires
            self.sg_id is Some,
        ensures
            is_lb_req(q, self.sg_id->0@, self.req, self.config),
    {
        let g = match &self.sg_id {
            Some(g) => g.clone(),
            None => unreached(),
        };
        let mut security_groups: Vec<String> = Vec::new();
        security_groups.push(g);
        LoadBalancerReq {
            name: self.req.deployment_slug.clone(),
            subnets: clone_string_vec(&self.config.public_subnets),
            security_groups,
        }
    }

    fn make_describe_req(&self) -> (q: DescribeLoadBalancersReq)
        requires
            self.lb_arn is Some,
        ensures
            is_describe_req(q, self.lb_arn->0@),
    {
        let arn = match &self.lb_arn {
            Some(arn) => arn.clone(),
            None => unreached(),
        };
        let mut load_balancer_arns: Vec<String> = Vec::new();
        load_balancer_arns.push(arn);
        DescribeLoadBalancersReq { load_balancer_arns }
    }

    fn make_listener_req(&self, k: usize) -> (q: ListenerReq)
        requires
            self.lb_arn is Some,
            k < self.tg_arns@.len(),
            k < self.req.targets@.len(),
        ensures
            is_listener_req(
                q,
                self.lb_arn->0@,
                self.tg_arns@[k as int]@,
                self.req.targets@[k as int].port,
            ),
    {
        let arn = match &self.lb_arn {
            Some(arn) => arn.clone(),
            None => unreached(),
        };
        ListenerReq {
            load_balancer_arn: arn,
            target_group_arn: self.tg_arns[k].clone(),
            action_type: "forward".to_owned(),
            port: self.req.targets[k].port,
            protocol: "HTTP".to_owned(),
        }
    }

    fn make_attach_req(&self) -> (q: AttachTargetGroupsReq)
        ensures
            is_attach_req(q, self.req, self.tg_arns@),
    {
        AttachTargetGroupsReq {
            auto_scaling_group_name: self.req.deployment_slug.clone(),
            target_group_arns: clone_string_vec(&self.tg_arns),
        }
    }

    fn make_record_req(&self) -> (q: RecordSetReq)
        requires
            self.lb_dns is Some,
        ensures
            is_record_req(q, self.req, self.config, self.lb_dns->0@),
    {
        let dns = match &self.lb_dns {
            Some(dns) => dns.clone(),
            None => unreached(),
        };
        RecordSetReq {
            hosted_zone_id: self.config.hosted_zone_id.clone(),
            action: "CREATE".to_owned(),
            record_name: self.req.subdomain_prefix.clone(),
            record_type: "CNAME".to_owned(),
            ttl: RECORD_TTL,
            region: self.config.record_region.clone(),
            value: dns,
        }
    }

    /// Consumes the outcome of the call in flight and decides what
    /// happens next: the next call to perform, a sleep of the readiness
    /// wait, or completion. A provider failure makes the run fail with
    /// the tag of the failing stage and ends it: a terminal run admits
    /// no further step, so no later stage can be reached. The readiness
    /// wait stops polling the first time the reported state code is
    /// `active`, and after `MAX_POLLS` polls it gives up and the run
    /// proceeds anyway.
    pub fn step(&mut self, ev: ProviderEvent) -> (r: Result<StepAction, Error>)
        requires
            old(self).wf(),
            !old(self).is_terminal(),
            expected_event(old(self).stage, ev),
        ensures
            final(self).wf(),
            Pipeline::step_rel(*old(self), ev, *final(self), r),
            r is Err <==> final(self).stage is Failed,
    {
        match ev {
            ProviderEvent::Failure(msg) => {
                let code = match self.stage {
                    Stage::LaunchTemplate => ErrorCode::LaunchTemplateCreationFailed,
                    Stage::AutoScalingGroup => ErrorCode::AutoScalingGroupCreationFailed,
                    Stage::TargetGroups => ErrorCode::TargetGroupCreationFailed,
                    Stage::SecurityGroup => ErrorCode::SecurityGroupCreationFailed,
                    Stage::Ingress => ErrorCode::SecurityGroupIngressRulesAdditionFailed,
                    Stage::LoadBalancer => ErrorCode::LoadBalancerCreationFailed,
                    Stage::ReadinessPoll => ErrorCode::LoadBalancerStateCheckFailed,
                    Stage::ReadinessSleep => unreached(),
                    Stage::Listeners => ErrorCode::ListenerCreationFailed,
                    Stage::AttachTargetGroups => ErrorCode::TargetGroupAttachFailed,
                    Stage::RecordSet => ErrorCode::RecordSetCreationFailed,
                    Stage::Completed => unreached(),
                    Stage::Failed => unreached(),
                };
                self.stage = Stage::Failed;
                Err(Error::new(code, msg))
            },
            ProviderEvent::Success(outcome) => match self.stage {
                Stage::LaunchTemplate => {
                    let q = self.make_asg_req();
                    self.stage = Stage::AutoScalingGroup;
                    Ok(StepAction::Call(ProviderRequest::CreateAutoScalingGroup(q)))
                },
                Stage::AutoScalingGroup => {
                    let q = self.make_tg_req(0);
                    self.stage = Stage::TargetGroups;
                    self.issued_tg = Ghost(self.issued_tg@ + 1);
                    Ok(StepAction::Call(ProviderRequest::CreateTargetGroup(q)))
                },
                Stage::TargetGroups => match outcome {
                    ProviderOutcome::TargetGroupCreated { target_group_arn } => {
                        match target_group_arn {
                            None => {
                                self.stage = Stage::Failed;
                                Err(Error::new(
                                    ErrorCode::TargetGroupCreationFailed,
                                    "target group creation returned no target group".to_owned(),
                                ))
                            },
                            Some(arn) => {
                                self.tg_arns.push(arn);
                                if self.tg_arns.len() < self.req.targets.len() {
                                    let i = self.tg_arns.len();
                                    let q = self.make_tg_req(i);
                                    self.issued_tg = Ghost(self.issued_tg@ + 1);
                                    Ok(StepAction::Call(ProviderRequest::CreateTargetGroup(q)))
                                } else {
                                    let q = self.make_sg_req();
                                    self.stage = Stage::SecurityGroup;
                                    Ok(StepAction::Call(ProviderRequest::CreateSecurityGroup(q)))
                                }
                            },
                        }
                    },
                    _ => unreached(),
                },
                Stage::SecurityGroup => match outcome {
                    ProviderOutcome::SecurityGroupCreated { group_id } => match group_id {
                        None => {
                            self.stage = Stage::Failed;
                            Err(Error::new(
                                ErrorCode::SecurityGroupCreationFailed,
                                "security group creation returned no group identifier".to_owned(),
                            ))
                        },
                        Some(g) => {
                            self.sg_id = Some(g);
                            let q = self.make_ingress_req(0);
                            self.stage = Stage::Ingress;
                            Ok(StepAction::Call(ProviderRequest::AuthorizeIngress(q)))
                        },
                    },
                    _ => unreached(),
                },
                Stage::Ingress => {
                    let n = self.req.targets.len();
                    assert(self.ingress_done < n);
                    self.ingress_done = self.ingress_done + 1;
                    if self.ingress_done < self.req.targets.len() {
                        let q = self.make_ingress_req(self.ingress_done);
                        Ok(StepAction::Call(ProviderRequest::AuthorizeIngress(q)))
                    } else {
                        let q = self.make_lb_req();
                        self.stage = Stage::LoadBalancer;
                        Ok(StepAction::Call(ProviderRequest::CreateLoadBalancer(q)))
                    }
                },
                Stage::LoadBalancer => match outcome {
                    ProviderOutcome::LoadBalancerCreated { dns_name, load_balancer_arn } => {
                        match (dns_name, load_balancer_arn) {
                            (Some(dns), Some(arn)) => {
                                self.lb_dns = Some(dns);
                                self.lb_arn = Some(arn);
                                self.polls = 0;
                                self.stage = Stage::ReadinessPoll;
                                self.issued_polls = Ghost(self.issued_polls@ + 1);
                                let q = self.make_describe_req();
                                Ok(StepAction::Call(ProviderRequest::DescribeLoadBalancers(q)))
                            },
                            _ => {
                                self.stage = Stage::Failed;
                                Err(Error::new(
                                    ErrorCode::LoadBalancerCreationFailed,
                                    "load balancer creation returned no load balancer".to_owned(),
                                ))
                            },
                        }
                    },
                    _ => unreached(),
                },
                Stage::ReadinessPoll => match outcome {
                    ProviderOutcome::LoadBalancerState { code } => {
                        self.polls = self.polls + 1;
                        let active = match &code {
                            Some(c) => {
                                let a: String = "active".to_owned();
                                *c == a
                            },
                            None => false,
                        };
                        if active {
                            let q = self.make_listener_req(0);
                            self.stage = Stage::Listeners;
                            self.listeners_done = 0;
                            self.issued_listeners = Ghost(self.issued_listeners@ + 1);
                            self.listener_arns_used = Ghost(
                                self.listener_arns_used@.push(self.tg_arns@[0]@),
                            );
                            Ok(StepAction::Call(ProviderRequest::CreateListener(q)))
                        } else {
                            self.stage = Stage::ReadinessSleep;
                            Ok(StepAction::Sleep(POLL_INTERVAL_SECS))
                        }
                    },
                    _ => unreached(),
                },
                Stage::ReadinessSleep => {
                    if self.polls < MAX_POLLS {
                        let q = self.make_describe_req();
                        self.stage = Stage::ReadinessPoll;
                        self.issued_polls = Ghost(self.issued_polls@ + 1);
                        Ok(StepAction::Call(ProviderRequest::DescribeLoadBalancers(q)))
                    } else {
                        let q = self.make_listener_req(0);
                        self.stage = Stage::Listeners;
                        self.listeners_done = 0;
                        self.issued_listeners = Ghost(self.issued_listeners@ + 1);
                        self.listener_arns_used = Ghost(
                            self.listener_arns_used@.push(self.tg_arns@[0]@),
                        );
                        Ok(StepAction::Call(ProviderRequest::CreateListener(q)))
                    }
                },
                Stage::Listeners => {
                    let n = self.req.targets.len();
                    assert(self.listeners_done < n);
                    self.listeners_done = self.listeners_done + 1;
                    if self.listeners_done < self.req.targets.len() {
                        let k = self.listeners_done;
                        let q = self.make_listener_req(k);
                        self.issued_listeners = Ghost(self.issued_listeners@ + 1);
                        self.listener_arns_used = Ghost(
                            self.listener_arns_used@.push(self.tg_arns@[k as int]@),
                        );
                        Ok(StepAction::Call(ProviderRequest::CreateListener(q)))
                    } else {
                        let q = self.make_attach_req();
                        self.stage = Stage::AttachTargetGroups;
                        Ok(StepAction::Call(ProviderRequest::AttachTargetGroups(q)))
                    }
                },
                Stage::AttachTargetGroups => {
                    let q = self.make_record_req();
                    self.stage = Stage::RecordSet;
                    Ok(StepAction::Call(ProviderRequest::ChangeRecordSet(q)))
                },
                Stage::RecordSet => {
                    self.stage = Stage::Completed;
                    Ok(StepAction::Finished)
                },
                Stage::Completed => unreached(),
                Stage::Failed => unreached(),
            },
        }
    }

    /// Assembles the response of a completed run: a fresh identifier and
    /// the normalized request echoed back.
    pub fn finish(self) -> (out: DeployAWSOutput)
        requires
            self.stage is Completed,
        ensures
            out.input == self.req,
            out.id@.len() == 36,
    {
        DeployAWSOutput::new(self.req)
    }
}

/// For a request with N targets, a completed run has issued exactly N
/// target-group-creation calls and exactly N listener-creation calls,
/// holds one target-group identifier per target, and the k-th listener
/// referenced the identifier the k-th target-group creation returned.
pub proof fn lemma_target_fanout(p: Pipeline)
    requires
        p.wf(),
        p.stage is Completed,
    ensures
        p.issued_tg@ == p.req.targets@.len(),
        p.issued_listeners@ == p.req.targets@.len(),
        p.tg_arns@.len() == p.req.targets@.len(),
        p.listener_arns_used@.len() == p.req.targets@.len(),
        forall|k: int|
            0 <= k < p.req.targets@.len() ==> p.listener_arns_used@[k] == #[trigger] p.tg_arns@[
                k
            ]@,
{
}

/// The readiness wait never asks for more than `MAX_POLLS` polls.
pub proof fn lemma_poll_budget(p: Pipeline)
    requires
        p.wf(),
    ensures
        p.issued_polls@ <= MAX_POLLS,
{
}

} // verus!
