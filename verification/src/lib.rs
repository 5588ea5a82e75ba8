//! Classifies ZIP archives by whether they contain only image files.
//!
//! The extension matcher decides, from a member name alone, whether an
//! entry counts as an image. The scanner walks an archive's central
//! directory under fixed resource bounds and reports a `ScanResult` on
//! every path, never an error.

pub mod archive;
pub mod batch;
pub mod matcher;
pub mod result;
pub mod scan;
