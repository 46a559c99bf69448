pub mod app;
pub mod email;
pub mod http;
