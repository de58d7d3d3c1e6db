//! A stage that restores the original data unit carried in identity
//! metadata across an opaque transform chain, merging it with the timing
//! and annotations the transform computed, and that tunnels control
//! messages across the same chain (`restore`, `unit`, `format`, `tunnel`).
//!
//! Beside it: the bookkeeping of an encoder-statistics bin (`stats`), the
//! layout decisions of a comparison mixer (`mixer`), a file source
//! (`filesrc`), and the result codes they share (`flow`).
pub mod flow;
pub mod format;
pub mod unit;
pub mod tunnel;
pub mod restore;
pub mod stats;
pub mod filesrc;
pub mod mixer;
