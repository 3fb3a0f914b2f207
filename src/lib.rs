use vstd::prelude::*;

pub mod clamped;
pub mod command;
pub mod control;
pub mod dispatch;
pub mod display;
pub mod error;
pub mod scale;

verus! {

} // verus!
