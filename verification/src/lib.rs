//! Core logic of a stereoscopic triangle viewer for a dual-screen handheld.
//!
//! The renderer itself is platform glue: it initialises the console's
//! graphics services, uploads a vertex buffer and draws it once per eye,
//! every frame. What this library holds is the part of that program that
//! is plain data and plain decisions: the per-frame reading of the input
//! state (`input`), the mesh with its front-and-back vertex buffer and its
//! attribute layout (`mesh`), and the per-frame parameters of the dual-eye
//! projection (`projection`). The renderer feeds raw input values in and
//! carries the returned decisions and data out with the platform's
//! floating-point matrix routines.

pub mod input;
pub mod mesh;
pub mod projection;
