//! Selection/crop coordinate engine for an interactive image-cropping tool.
//!
//! The engine maps pointer coordinates in window space through the current
//! view transform (fit-to-window scaling and centering) back into image-pixel
//! space, normalizes an arbitrary two-corner drag into a canonical
//! top-left-origin rectangle, clamps it to image bounds, and produces a crop
//! region free of sign and overflow errors.
//!
//! All geometry is carried out in exact fractions of integers, so the
//! transform is invertible by construction whenever its scale is non-zero,
//! and every contract speaks of exact rational values.

pub mod engine;
pub mod geom;
pub mod rat;
pub mod resolve;
pub mod transform;

pub use engine::{DragState, InputEvent, SelectionEngine};
pub use geom::{CropError, CropRect, FitMargin, Point2, RawSelection, Size2D};
pub use rat::{Frac, RatV};
pub use resolve::{resolve_selection, ResolveOutcome};
pub use transform::ViewTransform;
