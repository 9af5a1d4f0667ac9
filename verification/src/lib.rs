//! Directory listings as data: the records of one directory level, and the two
//! ways of presenting them, a bordered table and one line of JSON.
//!
//! Nothing here touches the file system. A caller reads the directory and hands
//! over what it found as plain values; every function states in its contract
//! what it makes of them.

pub mod decimal;
pub mod timestamp;
pub mod record;
pub mod scan;
pub mod table;
pub mod json;
pub mod present;
pub mod tint;
pub mod readback;
