pub mod app_state;
pub mod bridge;
pub mod browser_backend;
pub mod desktop_bridge;
pub mod launch;
pub mod payload;
pub mod pdf;
pub mod text;
pub mod ui;
pub mod webview_backend;
