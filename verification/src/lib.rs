//! Verified core of a one-shot cloud deployment service.
//!
//! A single declarative request describes a compute deployment: a launch
//! template, an auto-scaling group, one target group and listener per
//! exposed port, a security group with ingress rules, a load balancer and
//! a DNS record. The crate validates and normalizes the request, compiles
//! the boot script that materializes the requested files and applies the
//! build reference, and drives the strictly ordered provisioning pipeline
//! as an event-driven state machine: each step consumes the outcome of the
//! previous cloud call and decides the next call to issue. The caller
//! performs the cloud calls themselves and feeds the outcomes back in.

pub mod error;
pub mod request;
pub mod userdata;
pub mod pipeline;
