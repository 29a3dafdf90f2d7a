//! Verified core of a gossip peer-to-peer node: the listening plan built from a node's
//! configuration, the commands a client sends to its node, the decisions the node takes on
//! each command and on each swarm event, and the text it reports.
use vstd::prelude::*;

pub mod command;
pub mod event;
pub mod laws;
pub mod network;
pub mod outside;
pub mod peer;
pub mod string_set;
pub mod text;
pub mod topics;

verus! {

} // verus!
