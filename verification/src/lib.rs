//! Point ABSTraction library in Rust.
//!
//! We provide source and sink abstractions for LiDAR point cloud file and
//! stream formats. A canonical [`Point`] sits between the records of the
//! formats: a source turns the records that it reads into canonical points,
//! and a sink turns canonical points into the records that it writes.
//!
//! The library computes and decides; it does not read or write files. A
//! reader feeds its records to a [`source::Backlog`], from which chunks of
//! points are sourced, and a writer takes from a sink what the sink holds for
//! it. A [`pipeline::Conversion`] tells the one who reads and writes what to
//! do next. Every real-valued quantity is a [`Fixed`], a count of billionths,
//! so that what the library computes is exact.

pub mod dispatch;
pub mod error;
pub mod fixed;
pub mod pipeline;
pub mod point;
pub mod sink;
pub mod source;

pub use error::Error;
pub use fixed::Fixed;
pub use point::Point;
pub use sink::open_file_sink;
pub use sink::Sink;
pub use source::open_file_source;
pub use source::Source;
