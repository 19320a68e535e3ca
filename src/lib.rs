pub mod buffer;
pub mod session;
pub mod subscriptions;
pub mod supervisor;
pub mod types;
pub mod url;
pub mod variables;
