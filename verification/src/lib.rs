//! Merging of forward- and reverse-strand methylation calls at symmetric CpG
//! sites.
//!
//! A stream of site records is scanned once, front to back. Whenever a
//! forward-strand CpG record is immediately followed by a reverse-strand CpG
//! record one position further on, the two are combined into a single record
//! that keeps the forward member's position and carries the evidence of both.

pub mod site;
pub mod scan;
pub mod stream;
pub mod laws;
