pub mod endpoints;
pub mod errors;
pub mod fetch;
pub mod session;
