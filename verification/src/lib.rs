//! Management layer for one-dimensional discrete Fourier transforms:
//! fixed-capacity buffers over transform-aligned storage, plan descriptors
//! binding an input buffer to an output buffer, a compute gate that only
//! fires on a full input buffer, and a lazy cursor reconstructing the full
//! spectrum of a real-valued input from its stored Hermitian half-spectrum.
//!
//! Samples are carried as the bit patterns of 64-bit IEEE-754 values, so
//! that every structural operation of the layer (appending, gating,
//! mirroring, conjugation) is exact; turning bit patterns into numbers and
//! running the numerical transform itself belong to the surrounding
//! application.

pub mod buffer;
pub mod element;
pub mod hermitian;
pub mod transform;

pub use buffer::{BufItems, FftBuf};
pub use element::{Cx, Re, TransformData};
pub use hermitian::HermitianItems;
pub use transform::{Direction, Fftw, Plan};
