use vstd::prelude::*;

pub mod command;
pub mod mailbox;
pub mod upload;

verus! {

} // verus!
