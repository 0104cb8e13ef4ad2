pub mod error;
pub mod json;
pub mod response;
pub mod state;
