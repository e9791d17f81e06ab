//! A static-content HTTP server's request pipeline: rewriting, virtual hosts,
//! routing, access control, authentication, content negotiation and response
//! assembly.
pub mod text;
pub mod response;
pub mod static_files;
pub mod pattern;
pub mod config;
pub mod routing;
pub mod request;
pub mod acl;
pub mod compression;
pub mod auth;
pub mod rewrite;
pub mod server;
pub mod metrics;
pub mod events;
pub mod dispatch;
