//! Receiver side of a game-pad radio link, as run by a small LCD unit.
//!
//! The hand-held controller broadcasts state frames and control commands. This
//! crate decides what the unit does with each of them: which packets it looks at,
//! which frames are meant for it, which commands it obeys, what it answers, and
//! what its screen is told. Radio, display and codec stay outside; they hand in
//! plain values and carry out the actions that come back.

pub mod boot;
pub mod effects;
pub mod laws;
pub mod packet;
pub mod peer;
pub mod radio;
pub mod receiver;
pub mod self_test;
pub mod seq_num;
pub mod text;
pub mod view;
