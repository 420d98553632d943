//! A typed client core for the qBittorrent WebUI API: session state,
//! request dispatch with bounded re-login, and response classification.

pub mod api;
pub mod builder;
pub mod client;
pub mod dispatch;
pub mod endpoint;
pub mod error;
pub mod ext;
pub mod form;
pub mod model;
pub mod operation;
pub mod session;
pub mod text;

pub use error::ApiError;
pub use error::QbitError;
