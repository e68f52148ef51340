//! Building blocks of a small agent operating system.

pub mod acp_loop;
pub mod agent_loop;
pub mod base64;
pub mod clock;
pub mod computer_mcp;
pub mod conformance;
pub mod contract;
pub mod desktop;
pub mod digest;
pub mod domain;
pub mod echo_acp;
pub mod echo_mcp;
pub mod effect_adapter;
pub mod effects;
pub mod errors;
pub mod faults;
pub mod framing;
pub mod ids;
pub mod json;
pub mod local_memory;
pub mod openrouter_effect;
pub mod openrouter_loop;
pub mod ordered;
pub mod process;
pub mod rpc;
pub mod session;
pub mod store;
pub mod text;
pub mod url;
pub mod wasm_echo;
pub mod workspace;
