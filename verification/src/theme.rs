//! The colours that stand for an account's usage in the interface.
use vstd::prelude::*;

use crate::models::{Percent, PERCENT_EIGHTY_BITS, PERCENT_FIFTY_BITS};

verus! {

/// The theme colours that the usage figures take.
#[derive(Debug, Clone, Copy, PartialEq, Eq, Structural)]
pub enum ThemeColor {
    Blue,
    Green,
    Yellow,
    Red,
}

pub open spec fn below_fifty(p: Percent) -> bool {
    p.lt_spec(Percent { bits: PERCENT_FIFTY_BITS })
}

pub open spec fn below_eighty(p: Percent) -> bool {
    p.lt_spec(Percent { bits: PERCENT_EIGHTY_BITS })
}

/// The colour of the usage figure: green below 50 %, yellow below 80 %, red otherwise.
pub fn usage_color(percent: Percent) -> (r: ThemeColor)
    ensures
        r == (if below_fifty(percent) {
            ThemeColor::Green
        } else if below_eighty(percent) {
            ThemeColor::Yellow
        } else {
            ThemeColor::Red
        }),
{
    if percent.less_than(&Percent { bits: PERCENT_FIFTY_BITS }) {
        ThemeColor::Green
    } else if percent.less_than(&Percent { bits: PERCENT_EIGHTY_BITS }) {
        ThemeColor::Yellow
    } else {
        ThemeColor::Red
    }
}

/// The colour of the usage bar: blue below 50 %, yellow below 80 %, red otherwise.
pub fn progress_bar_color(percent: Percent) -> (r: ThemeColor)
    ensures
        r == (if below_fifty(percent) {
            ThemeColor::Blue
        } else if below_eighty(percent) {
            ThemeColor::Yellow
        } else {
            ThemeColor::Red
        }),
{
    if percent.less_than(&Percent { bits: PERCENT_FIFTY_BITS }) {
        ThemeColor::Blue
    } else if percent.less_than(&Percent { bits: PERCENT_EIGHTY_BITS }) {
        ThemeColor::Yellow
    } else {
        ThemeColor::Red
    }
}

/// The colours rise with usage: a usage at least as high never takes a calmer colour.
pub proof fn law_usage_color_monotone(p: Percent, q: Percent)
    requires
        !p.is_nan(),
        !q.is_nan(),
        p.ordinal() <= q.ordinal(),
    ensures
        below_fifty(q) ==> below_fifty(p),
        below_eighty(q) ==> below_eighty(p),
{
}

} // verus!
