//! An in-memory terminal theme for a file-listing tool.
//!
//! A [`colours::Colours`] value assigns a [`style::Style`] to every display
//! category a renderer might ask about: file kinds, permission bits, size
//! magnitudes, ownership, link counts, version-control status and assorted
//! punctuation. Renderers never depend on the theme's layout; they query it
//! through the narrow capability traits in [`render`].

pub mod colours;
pub mod laws;
pub mod render;
pub mod style;
