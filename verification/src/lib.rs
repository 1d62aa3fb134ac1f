//! Verified core of a single-shot provisioning tool for a security agent
//! package: it decides whether the agent is already installed, maps the
//! host's OS metadata and CPU architecture to a vendor package and its
//! download URL, and chooses the native install command. All decisions are
//! pure functions with contracts; the surrounding process and file work is
//! left to an unverified driver.

pub mod errors;
pub mod host;
pub mod installer;
pub mod resolver;
pub mod run;
pub mod strutil;
