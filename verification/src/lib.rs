pub mod commands;
pub mod laws;
pub mod renderer;
