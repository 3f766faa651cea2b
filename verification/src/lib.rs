use vstd::prelude::*;

pub mod diagnostics;
pub mod erasing_op;
pub mod fix;
pub mod int_value;
pub mod lints;
pub mod plugin;
pub mod project;
pub mod semantic;
pub mod syntax;
pub mod text;

verus! {

} // verus!
