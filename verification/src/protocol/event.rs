//! Events: named occurrences that markets are made on.

use crate::protocol::series::Series;
use crate::protocol::series::SeriesView;
use vstd::prelude::*;
use vstd::string::StringExecFns;

verus! {

/// A named occurrence, within a series, on which one or more markets are made.
pub struct Event {
    /// The ticker that identifies this event.
    pub ticker: String,
    /// Whether at most one of the event's markets can settle "yes".
    pub mutually_exclusive: bool,
    /// The series that this event belongs to.
    pub series: Series,
}

/// An [`Event`] as a mathematical value.
pub struct EventView {
    pub ticker: Seq<char>,
    pub mutually_exclusive: bool,
    pub series: SeriesView,
}

/// How a flag reads in text.
pub open spec fn flag_text(flag: bool) -> Seq<char> {
    if flag {
        "true"@
    } else {
        "false"@
    }
}

impl View for Event {
    type V = EventView;

    open spec fn view(&self) -> EventView {
        EventView {
            ticker: self.ticker@,
            mutually_exclusive: self.mutually_exclusive,
            series: self.series@,
        }
    }
}

impl Event {
    pub fn new(ticker: &str, mutually_exclusive: bool, series: Series) -> (event: Self)
        ensures
            event@ == (EventView { ticker: ticker@, mutually_exclusive, series: series@ }),
            event.series == series,
    {
        Event { ticker: ticker.to_owned(), mutually_exclusive, series }
    }

    /// The frequency of the series that this event belongs to.
    pub fn series_frequency(&self) -> (frequency: &str)
        ensures
            frequency@ == self@.series.frequency,
    {
        self.series.frequency.as_str()
    }

    /// The text of this event: its ticker, a comma and a space, and whether
    /// it is mutually exclusive.
    pub fn to_string(&self) -> (text: String)
        ensures
            text@ == self@.ticker + ", "@ + flag_text(self@.mutually_exclusive),
    {
        let mut text = self.ticker.clone();
        text.append(", ");
        text.append(if self.mutually_exclusive { "true" } else { "false" });
        text
    }
}

} // verus!
