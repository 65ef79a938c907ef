pub mod event;
pub mod handler;
pub mod kind;
pub mod render;
mod text;
