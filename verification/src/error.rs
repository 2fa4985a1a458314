//! Error taxonomy of the deployment service: one tagged kind per pipeline
//! stage, each carrying the originating provider error's message verbatim
//! and the fixed HTTP status that every documented failure path uses.

use vstd::prelude::*;

verus! {

/// One tag per way a deployment request can fail: the request itself is
/// invalid, or one of the ten provisioning stages reported an error.
#[derive(Clone, Copy, Debug, PartialEq, Eq, Structural)]
pub enum ErrorCode {
    ValidationError,
    LaunchTemplateCreationFailed,
    AutoScalingGroupCreationFailed,
    TargetGroupCreationFailed,
    SecurityGroupCreationFailed,
    SecurityGroupIngressRulesAdditionFailed,
    LoadBalancerCreationFailed,
    LoadBalancerStateCheckFailed,
    ListenerCreationFailed,
    TargetGroupAttachFailed,
    RecordSetCreationFailed,
}

/// The HTTP status that every documented failure path uses.
pub const FAILURE_STATUS: u16 = 500;

/// A failed deployment request: the stage tag, the provider's message
/// verbatim, and the HTTP status mirrored into the response body.
#[derive(Debug)]
pub struct Error {
    pub code: ErrorCode,
    pub message: String,
    pub status: u16,
}

/// The wire label of an error code, as it appears in the JSON error object.
pub open spec fn code_label(code: ErrorCode) -> Seq<char> {
    match code {
        ErrorCode::ValidationError => "ValidationError"@,
        ErrorCode::LaunchTemplateCreationFailed => "LaunchTemplateCreationFailed"@,
        ErrorCode::AutoScalingGroupCreationFailed => "AutoScalingGroupCreationFailed"@,
        ErrorCode::TargetGroupCreationFailed => "TargetGroupCreationFailed"@,
        ErrorCode::SecurityGroupCreationFailed => "SecurityGroupCreationFailed"@,
        ErrorCode::SecurityGroupIngressRulesAdditionFailed => (
            "SecurityGroupIngressRulesAdditionFailed"@
        ),
        ErrorCode::LoadBalancerCreationFailed => "LoadBalancerCreationFailed"@,
        ErrorCode::LoadBalancerStateCheckFailed => "LoadBalancerStateCheckFailed"@,
        ErrorCode::ListenerCreationFailed => "ListenerCreationFailed"@,
        ErrorCode::TargetGroupAttachFailed => "TargetGroupAttachFailed"@,
        ErrorCode::RecordSetCreationFailed => "RecordSetCreationFailed"@,
    }
}

impl Error {
    /// Tags a provider failure: the message is kept verbatim and the
    /// status is the fixed one of all documented failure paths.
    pub fn new(code: ErrorCode, message: String) -> (e: Error)
        ensures
            e.code == code,
            e.message == message,
            e.status == FAILURE_STATUS,
    {
        Error { code, message, status: FAILURE_STATUS }
    }

    /// The wire label of this error's code.
    pub fn code_str(&self) -> (s: String)
        ensures
            s@ == code_label(self.code),
    {
        match self.code {
            ErrorCode::ValidationError => "ValidationError".to_owned(),
            ErrorCode::LaunchTemplateCreationFailed => "LaunchTemplateCreationFailed".to_owned(),
            ErrorCode::AutoScalingGroupCreationFailed => (
                "AutoScalingGroupCreationFailed".to_owned()
            ),
            ErrorCode::TargetGroupCreationFailed => "TargetGroupCreationFailed".to_owned(),
            ErrorCode::SecurityGroupCreationFailed => "SecurityGroupCreationFailed".to_owned(),
            ErrorCode::SecurityGroupIngressRulesAdditionFailed => (
                "SecurityGroupIngressRulesAdditionFailed".to_owned()
            ),
            ErrorCode::LoadBalancerCreationFailed => "LoadBalancerCreationFailed".to_owned(),
            ErrorCode::LoadBalancerStateCheckFailed => "LoadBalancerStateCheckFailed".to_owned(),
            ErrorCode::ListenerCreationFailed => "ListenerCreationFailed".to_owned(),
            ErrorCode::TargetGroupAttachFailed => "TargetGroupAttachFailed".to_owned(),
            ErrorCode::RecordSetCreationFailed => "RecordSetCreationFailed".to_owned(),
        }
    }
}

} // verus!
