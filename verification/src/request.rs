//! The deployment request, its validation and normalization, and the
//! response object echoed back on success.
//!
//! A raw request may leave the target list, the scaling bounds and the
//! file list absent; normalization substitutes the documented defaults so
//! that the pipeline always works on a non-empty target list and concrete
//! bounds. Validation rejects an empty deployment slug or subdomain
//! prefix, a target port outside 1..=65535, an explicitly empty target
//! list, and a scaling bound below one.

use vstd::prelude::*;
use crate::error::{Error, ErrorCode, FAILURE_STATUS};

verus! {

/// One file materialized on the instance before the build is applied:
/// raw content and the absolute path it is written to.
#[derive(Debug)]
pub struct File {
    pub content: String,
    pub path: String,
}

/// One externally reachable port, with its optional health-check settings.
#[derive(Debug)]
pub struct Target {
    pub port: i64,
    pub health_check_path: Option<String>,
    pub health_check_enabled: Option<bool>,
}

/// The provisioning intent as supplied by the caller, before defaults are
/// filled in.
#[derive(Debug)]
pub struct DeployAWSInput {
    pub flake_url: String,
    pub instance_type: String,
    pub deployment_slug: String,
    pub files: Option<Vec<File>>,
    pub subdomain_prefix: String,
    pub min_size: Option<i64>,
    pub max_size: Option<i64>,
    pub targets: Option<Vec<Target>>,
}

/// The same intent with every default substituted: the target list is
/// non-empty and the scaling bounds are concrete.
#[derive(Debug)]
pub struct NormalizedRequest {
    pub flake_url: String,
    pub instance_type: String,
    pub deployment_slug: String,
    pub files: Vec<File>,
    pub subdomain_prefix: String,
    pub min_size: i64,
    pub max_size: i64,
    pub targets: Vec<Target>,
}

/// The port a request is served on when no target is given.
pub const DEFAULT_TARGET_PORT: i64 = 8000;

/// The scaling-group bound used when none is given.
pub const DEFAULT_GROUP_SIZE: i64 = 1;

/// The target substituted when the request names none: the default port,
/// health checks left to the provider's defaults (both fields absent).
pub open spec fn is_default_target(t: Target) -> bool {
    &&& t.port == DEFAULT_TARGET_PORT
    &&& t.health_check_path is None
    &&& t.health_check_enabled is None
}

/// A port the provider accepts.
pub open spec fn port_in_range(p: i64) -> bool {
    1 <= p <= 65535
}

/// A raw request the validator accepts: slug and subdomain prefix
/// non-empty, every given target port in range, a given target list
/// non-empty, and given scaling bounds at least one.
pub open spec fn valid_input(input: DeployAWSInput) -> bool {
    &&& input.deployment_slug@.len() > 0
    &&& input.subdomain_prefix@.len() > 0
    &&& (input.targets matches Some(ts) ==> ts@.len() > 0)
    &&& (input.targets matches Some(ts) ==> forall|i: int|
        0 <= i < ts@.len() ==> port_in_range(#[trigger] ts@[i].port))
    &&& (input.min_size matches Some(m) ==> m >= 1)
    &&& (input.max_size matches Some(m) ==> m >= 1)
}

/// What normalization leaves invariant and what it fills in: every field
/// of the raw request is kept, absent fields get their defaults.
pub open spec fn normalizes_to(input: DeployAWSInput, r: NormalizedRequest) -> bool {
    &&& r.flake_url == input.flake_url
    &&& r.instance_type == input.instance_type
    &&& r.deployment_slug == input.deployment_slug
    &&& r.subdomain_prefix == input.subdomain_prefix
    &&& match input.files {
        Some(fs) => r.files == fs,
        None => r.files@.len() == 0,
    }
    &&& match input.min_size {
        Some(m) => r.min_size == m,
        None => r.min_size == DEFAULT_GROUP_SIZE,
    }
    &&& match input.max_size {
        Some(m) => r.max_size == m,
        None => r.max_size == DEFAULT_GROUP_SIZE,
    }
    &&& match input.targets {
        Some(ts) => r.targets == ts,
        None => r.targets@.len() == 1 && is_default_target(r.targets@[0]),
    }
}

/// What holds of every normalized request the validator lets through.
pub open spec fn normalized_wf(r: NormalizedRequest) -> bool {
    &&& r.deployment_slug@.len() > 0
    &&& r.subdomain_prefix@.len() > 0
    &&& r.targets@.len() > 0
    &&& forall|i: int| 0 <= i < r.targets@.len() ==> port_in_range(#[trigger] r.targets@[i].port)
    &&& r.min_size >= 1
    &&& r.max_size >= 1
}

/// Validates a raw request and substitutes the defaults.
///
/// Succeeds exactly on valid requests. When the request names no targets,
/// the normalized request has exactly one target, on the default port,
/// with both health-check fields absent.
pub fn normalize(input: DeployAWSInput) -> (r: Result<NormalizedRequest, Error>)
    ensures
        r is Ok <==> valid_input(input),
        r matches Ok(n) ==> normalizes_to(input, n) && normalized_wf(n),
        r matches Err(e) ==> e.code == ErrorCode::ValidationError && e.status == FAILURE_STATUS,
{
    let DeployAWSInput {
        flake_url,
        instance_type,
        deployment_slug,
        files,
        subdomain_prefix,
        min_size,
        max_size,
        targets,
    } = input;
    if deployment_slug.as_str().is_empty() {
        return Err(Error::new(
            ErrorCode::ValidationError,
            "deployment_slug must not be empty".to_owned(),
        ));
    }
    if subdomain_prefix.as_str().is_empty() {
        return Err(Error::new(
            ErrorCode::ValidationError,
            "subdomain_prefix must not be empty".to_owned(),
        ));
    }
    if let Some(m) = min_size {
        if m < 1 {
            return Err(Error::new(
                ErrorCode::ValidationError,
                "min_size must be at least 1".to_owned(),
            ));
        }
    }
    if let Some(m) = max_size {
        if m < 1 {
            return Err(Error::new(
                ErrorCode::ValidationError,
                "max_size must be at least 1".to_owned(),
            ));
        }
    }
    let targets: Vec<Target> = match targets {
        Some(ts) => {
            if ts.len() == 0 {
                return Err(Error::new(
                    ErrorCode::ValidationError,
                    "targets must not be empty".to_owned(),
                ));
            }
            let mut i: usize = 0;
            while i < ts.len()
                invariant
                    input.targets == Some(ts),
                    i <= ts@.len(),
                    forall|j: int| 0 <= j < i ==> port_in_range(#[trigger] ts@[j].port),
                decreases ts@.len() - i,
            {
                let p = ts[i].port;
                if p < 1 || p > 65535 {
                    proof {
                        assert(!port_in_range(ts@[i as int].port));
                    }
                    return Err(Error::new(
                        ErrorCode::ValidationError,
                        "target port must be between 1 and 65535".to_owned(),
                    ));
                }
                i = i + 1;
            }
            ts
        },
        None => {
            let mut one: Vec<Target> = Vec::new();
            one.push(Target {
                port: DEFAULT_TARGET_PORT,
                health_check_path: None,
                health_check_enabled: None,
            });
            one
        },
    };
    let files: Vec<File> = match files {
        Some(fs) => fs,
        None => Vec::new(),
    };
    let min_size: i64 = match min_size {
        Some(m) => m,
        None => DEFAULT_GROUP_SIZE,
    };
    let max_size: i64 = match max_size {
        Some(m) => m,
        None => DEFAULT_GROUP_SIZE,
    };
    Ok(NormalizedRequest {
        flake_url,
        instance_type,
        deployment_slug,
        files,
        subdomain_prefix,
        min_size,
        max_size,
        targets,
    })
}

/// The response on full pipeline success: a freshly generated unique
/// identifier and the normalized request echoed back.
#[derive(Debug)]
pub struct DeployAWSOutput {
    pub id: String,
    pub input: NormalizedRequest,
}

/// Relies on uuid's `Uuid::new_v4` and the `Display` form of `Uuid`: a
/// random version-4 identifier rendered in the hyphenated format, which
/// is always 36 characters. The result is random, so nothing more is
/// promised of it.
#[verifier::external_body]
fn fresh_request_id() -> (id: String)
    ensures
        id@.len() == 36,
{
    uuid::Uuid::new_v4().to_string()
}

impl DeployAWSOutput {
    /// Assembles the response: a fresh identifier and the request echoed.
    pub fn new(input: NormalizedRequest) -> (out: DeployAWSOutput)
        ensures
            out.input == input,
            out.id@.len() == 36,
    {
        DeployAWSOutput { id: fresh_request_id(), input }
    }
}

} // verus!
