//! Capability traits for pull-based producers and push-based consumers of
//! sequences, each method stated by a contract over a small abstract model.
pub mod producer;
pub mod consumer;
pub mod manipulator;
pub mod sink;
