//! Verified core of the gitclaw agent framework: the document model shared by
//! the provider codecs, the prompt builders, the agent loop's decisions and the
//! tool helpers.

pub mod data;
pub mod text;
pub mod ai_types;
pub mod anthropic;
pub mod sse;
pub mod options;
pub mod openai;
pub mod google;
pub mod errors;
pub mod validation;
pub mod agent_types;
pub mod agent_loop;
pub mod agent;
pub mod registry;
pub mod objects;
pub mod models;
pub mod event_stream;
pub mod overflow;
pub mod env_keys;
pub mod sorting;
pub mod frontmatter;
pub mod agents;
pub mod skills;
pub mod workflows;
pub mod examples;
pub mod knowledge;
pub mod config;
pub mod loader;
pub mod compliance;
pub mod hooks;
pub mod audit;
pub mod tools;
pub mod session;
pub mod tool_loader;
pub mod sdk;
pub mod voice;
pub mod sandbox;
pub mod cli;
