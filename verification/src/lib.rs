//! Bare-metal provisioning: the rules behind the Dragonfly server and its agent.

pub mod agent;
pub mod agent_ws;
pub mod api;
pub mod artifact_cache;
pub mod auth;
pub mod checkin;
pub mod clock;
pub mod events;
pub mod ids;
pub mod install;
pub mod json;
pub mod link;
pub mod mac_to_words;
pub mod machine;
pub mod macos_ui;
pub mod metrics_mw;
pub mod os_templates;
pub mod proxmox;
pub mod seqs;
pub mod startup;
pub mod status;
pub mod store;
pub mod text;
pub mod tinkerbell;
pub mod urls;
pub mod words;
