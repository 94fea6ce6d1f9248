//! Trust-verification pipeline for handing managed SSH public keys to an
//! operating-system user on a cloud compute instance.
//!
//! The library holds every decision the pipeline makes: the shape check on
//! the instance identifier, the hypervisor-evidence cross-check, the
//! availability-zone and service-domain validators, the derivation of the
//! expected signer identity, and the staged state machine that ties the
//! checks together under an external deadline.  All metadata fetches, file
//! probes and logging are performed by the surrounding program, which hands
//! their results to the state machine as plain events.

pub mod domain;
pub mod identity;
pub mod pipeline;
pub mod reason;
pub mod signer;
pub mod text;
pub mod zone;
