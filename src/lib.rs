//! State and layout of a terminal status bar: a clock, CPU and RAM load, and
//! a tracker of the active desktop workspace.
pub mod app;
pub mod clock;
pub mod text;
pub mod ui;
pub mod workspace;
