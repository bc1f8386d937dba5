//! Decoding of image files of unknown format into RGBA rasters.
//!
//! A byte buffer is offered to an ordered list of decoders; the first that
//! accepts it wins. The camera RAW decoder is a pipeline of its own: sensor
//! samples are normalised to 8 bits, demosaiced, white-balanced and rotated
//! upright.

pub mod balance;
pub mod bitmap;
pub mod browse;
pub mod cfa;
pub mod demosaic;
pub mod develop;
pub mod dispatch;
pub mod error;
pub mod frame;
pub mod gain;
pub mod ieee;
pub mod info;
pub mod levels;
pub mod normalize;
pub mod orient;
pub mod planar;
pub mod raw;
pub mod registry;
pub mod svg;
