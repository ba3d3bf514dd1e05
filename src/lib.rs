//! Third-order hyper-dual numbers over an exact coefficient field.
use vstd::prelude::*;

pub mod dual_num;
pub mod rational;
pub mod hd3;
pub mod laws;

verus! {


} // verus!
