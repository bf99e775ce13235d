//! Request dispatch for an HTTP application server: a route-pattern compiler
//! and matcher, a router, and a middleware pipeline with a reversed chain of
//! error handlers.

pub mod date;
pub mod matcher;
pub mod middleware;
pub mod mimes;
pub mod nickel;
pub mod nickel_error;
pub mod pattern;
pub mod request;
pub mod response;
pub mod router;
pub mod static_files_handler;
pub mod string_map;
pub mod template_cache;
pub mod text;
