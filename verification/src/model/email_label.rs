//! The labels that a user can give to a mail.

use vstd::prelude::*;

verus! {

pub const NONE: &'static str = "";

pub const CORRECT: &'static str = "correct";

pub const WRONG_CATEGORY: &'static str = "wrong_category";

pub const SHOULD_TODO: &'static str = "should_todo";

pub const SHOULD_NOT_TODO: &'static str = "should_not_todo";

pub const DEADLINE_MISSING: &'static str = "deadline_missing";

pub const OTHER: &'static str = "other";

} // verus!
