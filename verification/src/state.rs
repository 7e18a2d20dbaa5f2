//! The one piece of state the widget keeps: where the cursor was last seen.

use vstd::prelude::*;
use crate::geometry::Point;

verus! {

/// Whether a stored location and a newly reported one differ, which is when
/// the host has to draw a new frame.
pub open spec fn changes(stored: Option<Point>, seen: Option<Point>) -> bool {
    stored != seen
}

/// What is stored once the reports `events` have been taken in, in order,
/// starting from `stored`: each report replaces what was stored before it.
pub open spec fn stored_after(stored: Option<Point>, events: Seq<Option<Point>>) -> Option<Point>
    decreases events.len(),
{
    if events.len() == 0 {
        stored
    } else {
        let before = stored_after(stored, events.drop_last());
        if changes(before, events.last()) {
            events.last()
        } else {
            before
        }
    }
}

/// How many new frames are asked for while the reports `events` are taken in,
/// in order, starting from `stored`.
pub open spec fn redraws(stored: Option<Point>, events: Seq<Option<Point>>) -> nat
    decreases events.len(),
{
    if events.len() == 0 {
        0
    } else {
        let before = stored_after(stored, events.drop_last());
        let earlier = redraws(stored, events.drop_last());
        if changes(before, events.last()) {
            earlier + 1
        } else {
            earlier
        }
    }
}

/// The location that was current just before report `i` of `events` came in.
pub open spec fn previous(
    stored: Option<Point>,
    events: Seq<Option<Point>>,
    i: int,
) -> Option<Point> {
    if i == 0 {
        stored
    } else {
        events[i - 1]
    }
}

/// The reports of `events` that differ from the location before them.
pub open spec fn change_points(stored: Option<Point>, events: Seq<Option<Point>>) -> Set<int> {
    Set::new(|i: int| 0 <= i < events.len() && previous(stored, events, i) != events[i])
}

/// Tells whether the newly reported location differs from the stored one.
pub fn differs(stored: Option<Point>, seen: Option<Point>) -> (changed: bool)
    ensures
        changed == changes(stored, seen),
{
    stored != seen
}

/// The last cursor location the widget has observed, or none while the cursor
/// is outside the area the host tracks.
///
/// The location is private: it changes only through [`State::observe`].
#[derive(Clone, Copy, Debug)]
pub struct State {
    cursor_position: Option<Point>,
}

impl View for State {
    type V = Option<Point>;

    closed spec fn view(&self) -> Option<Point> {
        self.cursor_position
    }
}

impl State {
    /// Makes the state of a widget that has observed nothing yet.
    pub fn new() -> (s: State)
        ensures
            s@ is None,
    {
        State { cursor_position: None }
    }

    /// Returns the stored location.
    pub fn cursor_position(&self) -> (p: Option<Point>)
        ensures
            p == self@,
    {
        self.cursor_position
    }

    /// Stores what the host reports and tells whether that changed anything.
    pub fn observe(&mut self, seen: Option<Point>) -> (changed: bool)
        ensures
            final(self)@ == seen,
            changed == changes(old(self)@, seen),
    {
        if differs(self.cursor_position, seen) {
            self.cursor_position = seen;
            true
        } else {
            false
        }
    }
}

impl Default for State {
    fn default() -> (s: State)
        ensures
            s@ is None,
    {
        State::new()
    }
}

/// Law: whatever was stored and whatever came before, after a run of reports
/// the stored location is the last report.
pub proof fn lemma_last_report_is_stored(stored: Option<Point>, events: Seq<Option<Point>>)
    requires
        events.len() > 0,
    ensures
        stored_after(stored, events) == events.last(),
{
}

/// Law: the location that is current before report `i` is what the earlier
/// reports left stored.
pub proof fn lemma_previous_is_stored(stored: Option<Point>, events: Seq<Option<Point>>, i: int)
    requires
        0 <= i < events.len(),
    ensures
        previous(stored, events, i) == stored_after(stored, events.take(i)),
{
    if i > 0 {
        lemma_last_report_is_stored(stored, events.take(i));
    }
}

/// Law: taking in a report that equals the stored location asks for no frame
/// and leaves the stored location as it is; and a report that has just been
/// taken in, reported again, asks for none either.
pub proof fn lemma_repeated_report_is_silent(stored: Option<Point>, seen: Option<Point>)
    ensures
        !changes(seen, seen),
        stored_after(stored, seq![seen, seen]) == stored_after(stored, seq![seen]),
        redraws(stored, seq![seen, seen]) == redraws(stored, seq![seen]),
        stored == seen ==> {
            &&& redraws(stored, seq![seen]) == 0
            &&& stored_after(stored, seq![seen]) == stored
        },
        stored != seen ==> redraws(stored, seq![seen]) == 1,
{
    let once = seq![seen];
    let twice = seq![seen, seen];
    assert(once.drop_last() =~= Seq::<Option<Point>>::empty());
    assert(twice.drop_last() =~= once);
    assert(once.last() == seen);
    assert(twice.last() == seen);
    assert(stored_after(stored, once.drop_last()) == stored);
    assert(redraws(stored, once.drop_last()) == 0);
    lemma_last_report_is_stored(stored, once);
}

/// Law: a run of reports asks for exactly one frame per report that differs
/// from the location before it, and for none besides.
pub proof fn lemma_one_redraw_per_change(stored: Option<Point>, events: Seq<Option<Point>>)
    ensures
        change_points(stored, events).finite(),
        redraws(stored, events) == change_points(stored, events).len(),
    decreases events.len(),
{
    let all = change_points(stored, events);
    if events.len() == 0 {
        assert(all =~= Set::<int>::empty());
    } else {
        let head = events.drop_last();
        let n = events.len() - 1;
        let earlier = change_points(stored, head);
        lemma_one_redraw_per_change(stored, head);
        assert(forall|i: int| 0 <= i < n ==> previous(stored, head, i) == previous(stored, events, i));
        assert(head =~= events.take(n));
        lemma_previous_is_stored(stored, events, n);
        if changes(stored_after(stored, head), events.last()) {
            assert(all =~= earlier.insert(n));
            assert(!earlier.contains(n));
        } else {
            assert(all =~= earlier);
        }
    }
}

/// Law: a run of reports that all equal the stored location asks for no frame.
pub proof fn lemma_unchanged_reports_are_silent(stored: Option<Point>, events: Seq<Option<Point>>)
    requires
        forall|i: int| 0 <= i < events.len() ==> events[i] == stored,
    ensures
        redraws(stored, events) == 0,
        stored_after(stored, events) == stored,
{
    lemma_one_redraw_per_change(stored, events);
    assert(change_points(stored, events) =~= Set::<int>::empty());
    if events.len() > 0 {
        lemma_last_report_is_stored(stored, events);
    }
}

} // verus!
