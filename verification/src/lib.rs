//! Verified core of a query for the Windows NT kernel's version numbers.
//!
//! The kernel reports its major, minor and build numbers through one routine
//! of the system-services module. Calling that routine is foreign code and is
//! left to the embedding crate. What lives here is everything around the call:
//! which module and export are looked up, what a lookup is worth, the
//! write-once cache of the routine's address, and the three output slots that
//! become the returned triple.

pub mod symbol;
pub mod version;
