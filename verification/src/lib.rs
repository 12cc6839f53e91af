pub mod actors;
pub mod checker;
pub mod config;
pub mod container;
pub mod graph;
pub mod images;
pub mod lifecycle;
pub mod state;
pub mod supervisor;
pub mod ui;
