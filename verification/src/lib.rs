//! The decisions of an Emby streaming gateway and of its configuration
//! tools, with their contracts proved: configuration rules, cache keys,
//! token and media-source selection, the cache-aside steps of the gateway,
//! the configuration wizard and the web studio's drafts.
use vstd::prelude::*;

pub mod app_state;
pub mod auth_header;
pub mod config;
pub mod decimal;
pub mod digest;
pub mod drafts;
pub mod emit;
pub mod forms;
pub mod forward;
pub mod mask;
pub mod gateway;
pub mod order;
pub mod playback;
pub mod playback_service;
pub mod startup;
pub mod text;
pub mod wizard;
