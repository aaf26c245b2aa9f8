//! Following the theme that the operating system reports.
use vstd::prelude::*;
use winit::window::Window;

verus! {

/// The application's colour theme.
#[derive(Clone, Copy, Debug, PartialEq, Eq)]
pub enum AppTheme {
    Dark,
    Light,
}

/// The options that decide how the theme is chosen.
#[derive(Clone, Copy, Debug, PartialEq, Eq)]
pub struct NativeOptions {
    /// Follow the theme the operating system reports.
    pub follow_system_theme: bool,
}

/// The application theme matching a window-system theme.
pub open spec fn theme_of(t: winit::window::Theme) -> AppTheme {
    match t {
        winit::window::Theme::Dark => AppTheme::Dark,
        winit::window::Theme::Light => AppTheme::Light,
    }
}

/// Maps a window-system theme to the application's theme.
pub fn theme_from_winit_theme(t: winit::window::Theme) -> (r: AppTheme)
    ensures
        r == theme_of(t),
{
    match t {
        winit::window::Theme::Dark => AppTheme::Dark,
        winit::window::Theme::Light => AppTheme::Light,
    }
}

/// The theme to use given what the operating system reported: nothing when
/// the options opt out of following it, whatever it reported.
pub fn resolve_system_theme(options: &NativeOptions, reported: Option<winit::window::Theme>) -> (r:
    Option<AppTheme>)
    ensures
        !options.follow_system_theme ==> r is None,
        options.follow_system_theme ==> r == match reported {
            Some(t) => Some(theme_of(t)),
            None => None,
        },
{
    if options.follow_system_theme {
        match reported {
            Some(t) => Some(theme_from_winit_theme(t)),
            None => None,
        }
    } else {
        None
    }
}

/// Relies on `winit::window::Window::theme`: what the window system reports,
/// which depends on the machine, so nothing is promised of it.
#[verifier::external_body]
fn window_theme(window: &Window) -> Option<winit::window::Theme> {
    window.theme()
}

/// The system theme of `window`, if the options follow it and the window
/// system reports one. The window is asked only when the options follow it.
pub fn system_theme(window: &Window, options: &NativeOptions) -> (r: Option<AppTheme>)
    ensures
        !options.follow_system_theme ==> r is None,
{
    if options.follow_system_theme {
        resolve_system_theme(options, window_theme(window))
    } else {
        None
    }
}

} // verus!
