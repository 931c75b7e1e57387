//! A verified model of a grammar binding: an opaque, immutable handle to a
//! compiled grammar, exposed through a single total, side-effect-free
//! accessor. The grammar itself is compiled by a provider outside this
//! crate; the library models the handle and the contract the accessor keeps.

pub mod grammar;
