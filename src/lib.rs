//! Authenticated delivery path for the Azure Monitor Logs Ingestion API:
//! bearer-token storage and refresh, request construction, response
//! mapping and retry classification.

pub mod auth;
pub mod config;
pub mod response;
pub mod retry;
pub mod service;
pub mod shared;
pub mod status;
