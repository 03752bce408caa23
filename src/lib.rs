//! Authoring core for game-content records: identifier normalisation, code
//! templates per content kind, export planning, and the session store.
pub mod normalize;
pub mod template;
pub mod error;
pub mod json;
pub mod export;
pub mod project;
pub mod plugins;
pub mod session;

pub use session::AppState;
