//! A discrete temperature hysteron: smooths a fluctuating temperature signal
//! so that small decreases after a rise do not make the output chatter.
use vstd::prelude::*;

pub mod hysteron;
pub mod lemmas;

verus! {

pub use crate::hysteron::{HysteronView, TemperatureHysteron};

} // verus!
