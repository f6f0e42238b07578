//! Construction of cross-chain message proofs and of the finality anchors
//! that a receiving chain needs to check them.

pub mod anchor;
pub mod assembler;
pub mod encoder;
pub mod model;
pub mod stake;
