//! Core of an API gateway custom authorizer: decomposing the inbound method
//! ARN into its context fields, and assembling the allow/deny policy document
//! that the gateway caches and enforces.

pub mod arn;
pub mod policy;
