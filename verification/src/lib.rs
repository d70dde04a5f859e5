//! Typed, memory-safe access to FITS files.
//!
//! The heavy lifting of file storage is done by an engine that speaks in
//! opaque handles and integer status codes.  This crate is the verified
//! layer on top of it: it translates status codes into structured errors,
//! converts between the 0-based addressing of this API and the engine's
//! 1-based addressing, classifies header/data units as images or tables,
//! and plans and decodes every typed read.  Each engine operation is split
//! into a verified half that builds the exact call the engine must receive,
//! and a verified half that turns the engine's raw answer into a typed
//! result; the unverifiable foreign call in between lives outside this
//! crate.

pub mod columns;
pub mod datatype;
pub mod errors;
pub mod fitsfile;
pub mod images;
pub mod keys;
pub mod stringutils;
