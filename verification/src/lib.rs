//! Verified core of the BDJ audio-provenance analyzer: verdict engine,
//! forensic header inspection, framing, storage rules and scan planning.
use vstd::prelude::*;

pub mod calibration;
pub mod corpus;
pub mod decode;
pub mod error;
pub mod evidence;
pub mod ffi;
pub mod forensic;
pub mod ipc;
pub mod scan;
pub mod signal;
pub mod store;
pub mod text;
pub mod types;
pub mod verdict;
pub mod volumes;
pub mod wrappers;

verus! {

} // verus!
