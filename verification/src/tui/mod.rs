pub mod app;
pub mod theme;
pub mod ui;

pub use theme::Colors;
