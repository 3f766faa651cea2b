//! The lints, one module each, and the names of the corelib functions that
//! they look for.
use vstd::prelude::*;

pub mod assertions_on_constants;
pub mod bool_assert_comparison;
pub mod bool_comparison;
pub mod bitwise_for_parity_check;
pub mod breaks;
pub mod clone_on_copy;
pub mod collapsible_if;
pub mod collapsible_if_else;
pub mod comparison_to_empty;
pub mod double_comparison;
pub mod double_parens;
pub mod duplicate_underscore_args;
pub mod eq_op;
pub mod equal_operand;
pub mod equatable_if_let;
pub mod erasing_op;
pub mod ifs;
pub mod impossible_comparison;
pub mod int_op_one;
pub mod int_plus_one;
pub mod invisible_characters;
pub mod loop_for_while;
pub mod loops;
pub mod manual;
pub mod manual_ok_or;
pub mod manual_unwrap_or_default;
pub mod min_max;
pub mod operator;
pub mod panic;
pub mod performance;
pub mod single_match;
pub mod unwrap_used;
pub mod useless_conversion;

use crate::semantic::{FunctionBody, FunctionId};

verus! {

pub const LE: &'static str = "core::traits::PartialOrd::le";

pub const GE: &'static str = "core::traits::PartialOrd::ge";

pub const LT: &'static str = "core::traits::PartialOrd::lt";

pub const GT: &'static str = "core::traits::PartialOrd::gt";

pub const EQ: &'static str = "core::traits::PartialEq::eq";

pub const NE: &'static str = "core::traits::PartialEq::ne";

pub const AND: &'static str = "core::traits::BitAnd::bitand";

pub const OR: &'static str = "core::traits::BitOr::bitor";

pub const XOR: &'static str = "core::traits::BitXor::bitxor";

pub const NOT: &'static str = "core::traits::BitNot::bitnot";

pub const DIV: &'static str = "core::traits::Div::div";

pub const MUL: &'static str = "core::traits::Mul::mul";

pub const SUB: &'static str = "core::traits::Sub::sub";

pub const SOME: &'static str = "core::option::Option::Some";

pub const NONE: &'static str = "core::option::Option::None";

pub const OK: &'static str = "core::result::Result::Ok";

pub const ERR: &'static str = "core::result::Result::Err";

pub const TRUE: &'static str = "core::bool::True";

pub const FALSE: &'static str = "core::bool::False";

pub const PANIC_WITH_FELT252: &'static str = "core::panic_with_felt252";

pub const DEFAULT: &'static str = "core::traits::Default::default";

pub const ARRAY_NEW: &'static str = "core::array::ArrayTrait::new";

/// The full path of the trait function that a called function is or
/// implements; empty where there is none.
pub open spec fn trait_name(function: FunctionId) -> Seq<char> {
    match function.body {
        FunctionBody::Impl(p) => p@,
        FunctionBody::Trait(p) => p@,
        _ => Seq::empty(),
    }
}

/// The full path of the trait function that `function` is or implements, or
/// the empty string where it has no body or belongs to no trait.
pub fn function_trait_name_from_fn_id(function: &FunctionId) -> (r: String)
    ensures
        r@ == trait_name(*function),
{
    match &function.body {
        FunctionBody::Impl(p) => p.clone(),
        FunctionBody::Trait(p) => p.clone(),
        _ => String::new(),
    }
}

} // verus!
