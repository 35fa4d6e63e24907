//! A small helper library over an OpenGL-style graphics binding: fixed
//! vertex-record layouts, builders that pack 2D primitives into flat
//! triangle-list buffers, and the byte-level packing those buffers are
//! uploaded with. Every scalar is held as the bit pattern of an IEEE-754
//! single-precision value, which lets the builder logic be verified
//! exactly while the numeric work stays with the numeric hardware.

pub mod fp;
pub mod geom;
pub mod xyzrgba;
pub mod xyzrgba_build2d;
pub mod xyzrgbauv;
