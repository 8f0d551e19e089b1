//! Verified core of a small desktop-personalization library: reading and
//! setting the desktop wallpaper, setting the lock-screen image, and flipping
//! the system light/dark theme.
//!
//! The platform calls themselves (wallpaper query/update, registry access,
//! lock-screen image service, settings broadcast) are operating-system I/O and
//! live outside this crate; this library holds the verified decision logic:
//! input validation, text decoding, fallback-path construction, and the
//! step-by-step protocols each operation follows, with their error mapping.

pub mod errors;
pub mod text;
pub mod utf16;
pub mod lockscreen;
pub mod theme;
pub mod wallpaper;

use vstd::prelude::*;

verus! {

} // verus!
