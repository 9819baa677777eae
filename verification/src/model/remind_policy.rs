//! When an item is reminded of.

use vstd::prelude::*;

verus! {

/// So many days before the deadline, at a set time of day.
pub const NORMAL: &'static str = "normal";

/// At once and two hours before a deadline that is a day away or less.
pub const URGENT: &'static str = "urgent";

/// At once and two hours before a link or a right lapses.
pub const LINK_EXPIRY: &'static str = "link_expiry";

} // verus!
