pub mod text;
pub mod version;
pub mod config;
pub mod protocol;
pub mod deployment_tracking;
pub mod crypto;
pub mod smoke_tests;
pub mod adapters;
pub mod message_buffer;
pub mod diagnostics;
pub mod caddy;
pub mod env_validator;
pub mod infrastructure;
pub mod pipeline;
pub mod webhooks;
pub mod vps_deploy;
pub mod watch;
pub mod smoke_checks;
pub mod rollback;
pub mod secrets;
pub mod secrets_api;
pub mod image_builds;
pub mod cli_deploy;
pub mod cli_secrets;
pub mod cli_status;
pub mod updates;
pub mod webhook_proxy;
pub mod compose_deploy;
pub mod rollback_storage;
pub mod cli_project;
pub mod agent_build;

use vstd::prelude::*;

verus! {

/// Default HTTP API port of the agent.
pub fn agent_http_port() -> (r: u16)
    ensures r == 17670,
{
    17670
}

} // verus!
