//! Logic core of a container-archive repackager and patcher.
//!
//! The library owns every decision the tool makes: resolving packer/unpacker
//! backends against a build cache, classifying and selecting container-image
//! entries, extracting title keys from ticket files, and driving the
//! extract/patch/repack pipeline as an explicit state machine.  All process
//! spawning and filesystem traffic is performed by a thin unverified shell
//! that executes the actions this library hands out.

pub mod backend;
pub mod pack;
pub mod patch;
pub mod scan;
pub mod ticket;
