//! Fixed-capacity character buffers in four layout variants.
//!
//! Each variant holds up to [`model::CAPACITY`] characters in insertion
//! order and supports push-at-end, pop-from-end, indexed read and a length
//! query. The variants differ only in the width of the stored occupancy
//! count (8-bit versus machine-word) and in whether a bounds assertion
//! stands before each slot access; their observable behaviour is identical,
//! stated through the shared abstract model in [`model`].

pub mod buffer_u8;
pub mod buffer_u8_hint;
pub mod buffer_usize;
pub mod buffer_usize_hint;
pub mod model;

pub use buffer_u8::InputBufferU8;
pub use buffer_u8_hint::InputBufferU8Hint;
pub use buffer_usize::InputBufferUsize;
pub use buffer_usize_hint::InputBufferUsizeHint;
