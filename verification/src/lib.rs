pub mod agent;
pub mod agent_dir;
pub mod cli;
pub mod config;
pub mod env_file;
pub mod json;
pub mod mcp;
pub mod permissions;
pub mod provider;
pub mod report;
pub mod run_log;
pub mod skills;
pub mod summarization;
pub mod text;
pub mod tools;
pub mod trace;
