//! The agent: its main loop, the planner and sub-agents.

pub mod agent_loop;
pub mod planner;
pub mod subagent;
