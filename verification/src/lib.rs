pub mod args;
pub mod config;
pub mod digest;
pub mod error;
pub mod ignore_policy;
pub mod rename;
pub mod text;
pub mod walk;
