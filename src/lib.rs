//! Centralized event routing for multi-process fuzzing.
//!
//! Secondary fuzzer processes funnel their new testcases through a
//! centralized channel to a single main evaluator, which re-evaluates them
//! and republishes the ones it accepts. The modules hold the routing
//! decisions, the framing of messages on that channel and the restart-time
//! corpus pruning stage.
pub mod codec;
pub mod event;
pub mod manager;
pub mod pruning;
