//! Supply-chain audit of dependency references found in automation workflows.
//!
//! A workflow names third-party actions as `owner/repo@version` strings.  This
//! crate classifies such references, applies a pinning and trust policy to
//! them, decides how to react to an advisory-lookup response, and accumulates
//! the findings of one scan pass into a report.  All I/O (reading the workflow
//! document, the HTTP lookup itself) is left to the caller; the logic here is
//! pure and carries proved contracts.

pub mod advisory;
pub mod laws;
pub mod policy;
pub mod refparse;
pub mod scan;
pub mod strset;
