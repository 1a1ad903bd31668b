//! Square face crops: the geometry of the crop, what is accepted of a
//! detector's answer, where a crop is written, which files of a directory
//! are processed, and the report on a batch. Each function states what it
//! returns as a contract, and each contract is proved.

pub mod batch;
pub mod detection;
pub mod extensions;
pub mod geometry;
pub mod imaging;
pub mod names;
pub mod paths;
pub mod report;
