//! Screen-region selection and capture-to-text: the geometry of a dragged
//! rectangle, the pointer-driven selection state machine, cropping of a
//! screen snapshot, and the hand-off to a text-recognition backend.
pub mod application;
pub mod capture;
pub mod geometry;
pub mod recognition;
pub mod selection;
