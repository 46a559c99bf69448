pub mod email;
pub mod health_check;
