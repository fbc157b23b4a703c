#![verifier::loop_isolation(false)]

pub mod catalog;
pub mod client;
pub mod commands;
pub mod interactive;
pub mod list;
pub mod normalize;
pub mod spring;
pub mod text;
pub mod validate;
