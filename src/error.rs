//! The library's error type.
use vstd::prelude::*;

verus! {

/// What went wrong, with a message for the operator.
#[derive(Debug)]
pub enum VoteMonitorError {
    GrpcConnection(String),
    Config(String),
    VoteParsing(String),
    Dashboard(String),
}

} // verus!
