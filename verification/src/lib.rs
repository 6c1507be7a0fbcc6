use vstd::prelude::*;

pub mod laws;
pub mod layout;
pub mod page;
pub mod script;
pub mod shell;
pub mod url;

verus! {

} // verus!
