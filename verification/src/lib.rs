//! Scene composition for a retained-mode 2D toolkit: widgets draw into a
//! display list, the list is batched into triangle meshes, and a frame
//! compositor decides, step by step, what the GPU is asked to do.
//!
//! Every coordinate is a whole number of units and every transformation is an
//! exact rational map, so each contract below is a statement of arithmetic.
//!
//! - [`geometry`], [`transformation`]: points, rectangles and affine maps.
//! - [`layout`], [`mouse`], [`event`], [`tree`]: what widgets are asked and
//!   told.
//! - [`widget`]: what every widget can do; [`canvas`] and [`loupe`]: two
//!   widgets.
//! - [`render`]: the display list that widgets draw into; [`cache`]: a
//!   single-slot cache for what is costly to draw.
//! - [`batch`], [`mesh`]: from the display list to meshes, and the count of
//!   what they hold.
//! - [`compositor`]: the order of a frame.

pub mod batch;
pub mod cache;
pub mod canvas;
pub mod compositor;
pub mod event;
pub mod geometry;
pub mod layout;
pub mod loupe;
pub mod mesh;
pub mod mouse;
pub mod render;
pub mod transformation;
pub mod tree;
pub mod widget;
