//! A bridge between an agent process that speaks a line-delimited JSON-RPC
//! dialect and a conversation model of durable threads and turns: the thread
//! store and its item logs, the prompt tracker and turn decisions, the
//! translation of streamed updates into events, and the approval broker.
use vstd::prelude::*;

pub mod approval;
pub mod command;
pub mod config;
pub mod ids;
pub mod models;
pub mod prompt;
pub mod session;
pub mod text;
pub mod thread_items;
pub mod thread_store;
pub mod titles;
pub mod tool;
pub mod tracker;
pub mod turn;
pub mod usage;
pub mod worktree;

verus! {

} // verus!
