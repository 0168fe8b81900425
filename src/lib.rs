//! Cerberus over TCP: the framing and request/response state machine that
//! carry attestation messages over a byte stream, and the RSA capability
//! traits that signature backends implement.
use vstd::prelude::*;

pub mod client;
pub mod frame;
pub mod host;
pub mod net;
pub mod rsa;

verus! {

} // verus!
