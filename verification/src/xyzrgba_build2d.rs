//! The 2D builder entry points for the position-and-color record.
//!
//! These are the same builders as the canonical ones: the library keeps a
//! single fan convention for `put_poly` (the first wedge ends at the
//! phase angle, wedges are counted from zero), documented on the
//! canonical function, rather than a second divergent copy.

pub use crate::xyzrgba::{put_poly, put_quad, put_triangle};
