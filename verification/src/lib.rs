pub mod codec;
pub mod config;
pub mod lifecycle;
pub mod message;
pub mod subscription;
