pub mod allowed_origin;
