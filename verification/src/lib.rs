//! Job definitions, job construction and the decision logic of the job
//! runner `jf`, with the contracts that Verus proves of them.
pub mod cfg;
pub mod error;
pub mod job;
pub mod jobdef;
pub mod logging;
