pub mod cache;
pub mod client;
pub mod request;
pub mod resource;
