//! Bookkeeping and decision layer between a native window event loop and an
//! immediate-mode GUI: posted events, repaint scheduling, viewport registry.

pub mod outside;
pub mod event;
pub mod ids;
pub mod registry;
pub mod theme;
pub mod context;
pub mod winit_app;
