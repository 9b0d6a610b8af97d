//! Argument normalisation and runtime planning for the AppFS adapter runtime,
//! together with the small value types that the runtime and connector SDK share.

pub mod text;
pub mod app_ids;
pub mod runtime;
pub mod session;
pub mod supervisor;
pub mod snapshot;
pub mod connector;
pub mod serve_loop;
