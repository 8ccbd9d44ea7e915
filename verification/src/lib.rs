//! Core logic of an interactive screen-region selector.
//!
//! The library is organised around three pieces:
//!
//! - a selection geometry engine ([`geometry`]): rectangle normalization,
//!   corner and side derivation, hit-testing and corner-relative resize
//!   arithmetic;
//! - a region specification micro-language: a compact textual grammar for
//!   a rectangle relative to a yet-unknown container;
//! - key-sequence and modifier parsing: chords of up to two keys with a
//!   modifier set, used to drive the engine from a configurable keymap.
//!
//! All pixel coordinates are signed 64-bit integers. Values handed to the
//! library are expected to stay within [`geometry::MAX_COORD`] of zero;
//! state kept by the library is clamped back into that range, so that all
//! arithmetic is proved free of overflow.

pub mod app;
pub mod color;
pub mod commands;
pub mod errors;
pub mod event;
pub mod geometry;
pub mod image_action;
pub mod key;
pub mod key_map;
pub mod lazy_rect;
pub mod letters;
pub mod message;
pub mod popup;
pub mod selection;
pub mod size_indicator;
pub mod text;
pub mod toggle;
pub mod upload;
