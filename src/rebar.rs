//! Rebar counts per position: three layers at the top of the section and three
//! at the bottom, each given or left out on its own.
use vstd::prelude::*;

verus! {

/// The count that an omitted position resolves to.
pub const DEFAULT_REBAR_COUNT: u32 = 0;

/// A count as written in the document, resolved: the given value, or zero.
pub open spec fn count_or_zero(c: Option<u32>) -> u32 {
    match c {
        Some(n) => n,
        None => DEFAULT_REBAR_COUNT,
    }
}

/// Rebar counts as read from the `num_rebar` table; an absent key is `None`.
#[derive(Clone, Copy, Debug, PartialEq, Eq, Default)]
pub struct NumRebar {
    pub top_1: Option<u32>,
    pub top_2: Option<u32>,
    pub top_3: Option<u32>,
    pub bottom_1: Option<u32>,
    pub bottom_2: Option<u32>,
    pub bottom_3: Option<u32>,
}

impl NumRebar {
    pub open spec fn spec_top_1(&self) -> u32 {
        count_or_zero(self.top_1)
    }

    pub open spec fn spec_top_2(&self) -> u32 {
        count_or_zero(self.top_2)
    }

    pub open spec fn spec_top_3(&self) -> u32 {
        count_or_zero(self.top_3)
    }

    pub open spec fn spec_bottom_1(&self) -> u32 {
        count_or_zero(self.bottom_1)
    }

    pub open spec fn spec_bottom_2(&self) -> u32 {
        count_or_zero(self.bottom_2)
    }

    pub open spec fn spec_bottom_3(&self) -> u32 {
        count_or_zero(self.bottom_3)
    }

    /// Bars in the outermost top layer.
    pub fn top_1(&self) -> (r: u32)
        ensures
            r == self.spec_top_1(),
    {
        self.top_1.unwrap_or(DEFAULT_REBAR_COUNT)
    }

    /// Bars in the second top layer.
    pub fn top_2(&self) -> (r: u32)
        ensures
            r == self.spec_top_2(),
    {
        self.top_2.unwrap_or(DEFAULT_REBAR_COUNT)
    }

    /// Bars in the third top layer.
    pub fn top_3(&self) -> (r: u32)
        ensures
            r == self.spec_top_3(),
    {
        self.top_3.unwrap_or(DEFAULT_REBAR_COUNT)
    }

    /// Bars in the outermost bottom layer.
    pub fn bottom_1(&self) -> (r: u32)
        ensures
            r == self.spec_bottom_1(),
    {
        self.bottom_1.unwrap_or(DEFAULT_REBAR_COUNT)
    }

    /// Bars in the second bottom layer.
    pub fn bottom_2(&self) -> (r: u32)
        ensures
            r == self.spec_bottom_2(),
    {
        self.bottom_2.unwrap_or(DEFAULT_REBAR_COUNT)
    }

    /// Bars in the third bottom layer.
    pub fn bottom_3(&self) -> (r: u32)
        ensures
            r == self.spec_bottom_3(),
    {
        self.bottom_3.unwrap_or(DEFAULT_REBAR_COUNT)
    }
}

/// Each position resolves on its own: its resolved count depends on its own
/// key alone, and an omitted key gives zero whatever the other five hold.
pub proof fn lemma_counts_resolve_independently(n: NumRebar, m: NumRebar)
    ensures
        n.top_1 == m.top_1 ==> n.spec_top_1() == m.spec_top_1(),
        n.top_2 == m.top_2 ==> n.spec_top_2() == m.spec_top_2(),
        n.top_3 == m.top_3 ==> n.spec_top_3() == m.spec_top_3(),
        n.bottom_1 == m.bottom_1 ==> n.spec_bottom_1() == m.spec_bottom_1(),
        n.bottom_2 == m.bottom_2 ==> n.spec_bottom_2() == m.spec_bottom_2(),
        n.bottom_3 == m.bottom_3 ==> n.spec_bottom_3() == m.spec_bottom_3(),
        n.top_1 is None ==> n.spec_top_1() == 0,
        n.top_2 is None ==> n.spec_top_2() == 0,
        n.top_3 is None ==> n.spec_top_3() == 0,
        n.bottom_1 is None ==> n.spec_bottom_1() == 0,
        n.bottom_2 is None ==> n.spec_bottom_2() == 0,
        n.bottom_3 is None ==> n.spec_bottom_3() == 0,
{
}

} // verus!
