//! Verified core of a customer/article gateway service: bearer-token
//! authentication with a TTL session cache, role-based authorization,
//! profile aggregation over several sources with a per-source failure
//! policy, and a multi-step issue-creation workflow with explicit
//! partial-failure semantics.
//!
//! All network and database traffic stays outside this crate; the
//! functions here take the outcomes of those calls as plain values and
//! decide everything else.

pub mod aggregate;
pub mod authz;
pub mod cache;
pub mod corp;
pub mod credentials;
pub mod decimal;
pub mod errors;
pub mod gateway;
pub mod issue;
pub mod profile;
pub mod records;
