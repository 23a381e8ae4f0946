//! A minimal interactive text-editor shell: a navigation controller that
//! tracks a cursor inside a terminal viewport and a renderer that redraws
//! the viewport (placeholder tildes, a centered welcome banner, optional
//! buffered lines) after every input event.
//!
//! The library itself performs no I/O. The renderer produces the frame as a
//! sequence of [`terminal::TermCommand`] values, and the controller consumes
//! already-decoded [`editor::InputEvent`] values; a thin binary drives the
//! real terminal with them.

pub mod banner;
pub mod editor;
pub mod render;
pub mod terminal;
pub mod view;
