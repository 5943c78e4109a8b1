//! A counter that is advanced one step at a time and reports where it stands.

use vstd::prelude::*;

verus! {

/// A count of the updates made so far.
pub struct Tracker {
    value: i32,
}

impl Tracker {
    /// The number of updates made so far.
    pub closed spec fn count(self) -> int {
        self.value as int
    }

    /// A tracker on which no update has been made.
    pub fn new() -> (tracker: Self)
        ensures
            tracker.count() == 0,
    {
        Tracker { value: 0 }
    }

    /// The current count.
    pub fn value(&self) -> (value: i32)
        ensures
            value == self.count(),
    {
        self.value
    }

    /// Advances the count by exactly one and returns the new count.
    pub fn update(&mut self) -> (reported: i32)
        requires
            old(self).count() < i32::MAX,
        ensures
            final(self).count() == old(self).count() + 1,
            reported == final(self).count(),
    {
        self.value = self.value + 1;
        self.value
    }
}

/// Makes a tracker, updates it twice and returns what each update reported:
/// 1, then 2.
pub fn track_changes() -> (reports: Vec<i32>)
    ensures
        reports@ == seq![1i32, 2i32],
{
    let mut tracker = Tracker::new();
    let mut reports: Vec<i32> = Vec::new();
    let first = tracker.update();
    reports.push(first);
    let second = tracker.update();
    reports.push(second);
    reports
}

} // verus!
