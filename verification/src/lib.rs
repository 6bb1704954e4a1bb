//! Reuse a byte-buffer-driven value constructor as a property-testing
//! strategy that supports shrinking.
//!
//! A consumer of unstructured data (see [`ArbInterop`]) turns a byte slice
//! into a value. [`ArbStrategy`] draws a random buffer and builds an
//! [`ArbValueTree`] from it; the tree then answers the three-operation shrink
//! protocol — `current`, `simplify`, `complicate` — by re-invoking the
//! consumer on ever shorter prefixes of the same buffer and keeping a
//! single-step undo slot.

pub mod consumers;
pub mod error;
pub mod interop;
pub mod strategy;
pub mod tree;

pub use error::ConstructError;
pub use interop::ArbInterop;
pub use strategy::arb;
pub use strategy::arb_sized;
pub use strategy::ArbStrategy;
pub use strategy::StrategyError;
pub use strategy::DEFAULT_SIZE;
pub use tree::ArbValueTree;
