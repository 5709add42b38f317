//! Verified core logic of the Vale Gateway control plane and its command line tool.
use vstd::prelude::*;

pub mod text;
pub mod text_rules;
pub mod emoji;
pub mod age;
pub mod listing;
pub mod status_table;
pub mod options;
pub mod commands;
pub mod controller_state;
pub mod health;
pub mod watch_state;
pub mod object_ref;
pub mod entries;
pub mod ref_map;
pub mod objects;
pub mod decimal;
pub mod kinds;
pub mod backends;
pub mod routes;
pub mod route_config;
pub mod api;
pub mod filter_status;
pub mod gateway_classes;
pub mod gateway_parameters;
pub mod sync_plan;
pub mod gateway_config;
pub mod extension_filters;
pub mod gateway_status;
pub mod instances;
pub mod ipc;

verus! {

} // verus!
