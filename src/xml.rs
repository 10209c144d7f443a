//! XML stages of the pipeline: record segmentation and tree walking.
pub mod handler;
pub mod reader;
