//! Sequential composition of prompt chains: the steps run one after another,
//! and the output of each step is threaded into the template of the next.
pub mod prompt;
pub mod context;
pub mod result;
pub mod execution;
pub mod laws;
pub mod sequential;
