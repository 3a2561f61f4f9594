//! Which days a report shows.

use vstd::prelude::*;

verus! {

/// One of the two days the provider quotes prices for.
#[derive(Clone, Copy, Debug, PartialEq, Eq, Structural)]
pub enum Day {
    Today,
    Tomorrow,
}

/// The days a report shows.
#[derive(Clone, Copy, Debug, PartialEq, Eq, Structural)]
pub struct ViewSelection {
    pub today: bool,
    pub tomorrow: bool,
}

/// The selection that two switches ask for: today when it is asked for or
/// when nothing is, tomorrow only when it is asked for.
pub open spec fn selection_of(today_flag: bool, tomorrow_flag: bool) -> ViewSelection {
    ViewSelection { today: today_flag || !tomorrow_flag, tomorrow: tomorrow_flag }
}

/// The days of a selection in the order they are shown: today before tomorrow.
pub open spec fn days_of(selection: ViewSelection) -> Seq<Day> {
    (if selection.today { seq![Day::Today] } else { Seq::<Day>::empty() })
        + (if selection.tomorrow { seq![Day::Tomorrow] } else { Seq::<Day>::empty() })
}

impl ViewSelection {
    /// Whether `day` is shown.
    pub open spec fn shows(self, day: Day) -> bool {
        match day {
            Day::Today => self.today,
            Day::Tomorrow => self.tomorrow,
        }
    }

    /// Whether `day` is shown.
    pub fn includes(&self, day: Day) -> (shown: bool)
        ensures
            shown == self.shows(day),
    {
        match day {
            Day::Today => self.today,
            Day::Tomorrow => self.tomorrow,
        }
    }

    /// The days to show, in order.
    pub fn days(&self) -> (days: Vec<Day>)
        ensures
            days@ == days_of(*self),
    {
        let mut days: Vec<Day> = Vec::new();
        if self.today {
            days.push(Day::Today);
        }
        if self.tomorrow {
            days.push(Day::Tomorrow);
        }
        assert(days@ =~= days_of(*self));
        days
    }
}

/// Turns the two command-line switches into the days to show.
pub fn select_views(today_flag: bool, tomorrow_flag: bool) -> (selection: ViewSelection)
    ensures
        selection == selection_of(today_flag, tomorrow_flag),
{
    let show_today = today_flag || (!today_flag && !tomorrow_flag);
    ViewSelection { today: show_today, tomorrow: tomorrow_flag }
}

/// What the switches come to. With neither set, today is shown and nothing
/// else; with only the one for tomorrow set, tomorrow is shown and today is
/// not; with both set, both days are, today first. Whatever the switches,
/// something is shown, a day whose switch is set is shown, and the days
/// listed are exactly the days selected.
pub proof fn lemma_selection(today_flag: bool, tomorrow_flag: bool)
    ensures
        !today_flag && !tomorrow_flag ==> days_of(selection_of(today_flag, tomorrow_flag))
            == seq![Day::Today],
        !today_flag && tomorrow_flag ==> days_of(selection_of(today_flag, tomorrow_flag))
            == seq![Day::Tomorrow],
        today_flag && !tomorrow_flag ==> days_of(selection_of(today_flag, tomorrow_flag))
            == seq![Day::Today],
        today_flag && tomorrow_flag ==> days_of(selection_of(today_flag, tomorrow_flag))
            == seq![Day::Today, Day::Tomorrow],
        days_of(selection_of(today_flag, tomorrow_flag)).len() >= 1,
        today_flag ==> selection_of(today_flag, tomorrow_flag).today,
        selection_of(today_flag, tomorrow_flag).tomorrow == tomorrow_flag,
        forall|day: Day|
            days_of(selection_of(today_flag, tomorrow_flag)).contains(day) <==> selection_of(
                today_flag,
                tomorrow_flag,
            ).shows(day),
{
    let s = selection_of(today_flag, tomorrow_flag);
    let d = days_of(s);
    if s.today && s.tomorrow {
        assert(d =~= seq![Day::Today, Day::Tomorrow]);
    } else if s.today {
        assert(d =~= seq![Day::Today]);
    } else {
        assert(d =~= seq![Day::Tomorrow]);
    }
    assert forall|day: Day| d.contains(day) <==> s.shows(day) by {
        if s.today {
            assert(d[0] == Day::Today);
        }
        if s.tomorrow {
            assert(d[d.len() - 1] == Day::Tomorrow);
        }
        if d.contains(day) {
            let i = choose|i: int| 0 <= i < d.len() && d[i] == day;
            assert(d[i] == day);
        }
    }
}

} // verus!
