//! An out-of-the-box web server toolkit: the decisions it makes about
//! errors, routes, logging, tokens, pools and streamed bodies, with their
//! contracts.
pub mod http_error;
pub mod log;
pub mod status;
pub mod error_catch;
pub mod assets;
pub mod db_pool;
pub mod db;
pub mod authorization;
pub mod config;
pub mod route;
pub mod server;
