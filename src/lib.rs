//! Print a local document to PDF through a browser driven over the
//! automation protocol: the decisions of the run, with their contracts.
use vstd::prelude::*;

pub mod digits;
pub mod external;
pub mod conversion;
pub mod options;
pub mod pipeline;
pub mod session;

verus! {

} // verus!
