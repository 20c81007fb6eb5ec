//! Events: named occurrences that markets are made on.

use crate::data::series::Series;
use crate::data::series::SeriesView;
use vstd::prelude::*;
use vstd::string::StringExecFns;

verus! {

/// A named occurrence, within a series, on which one or more markets are made.
pub struct Event<'a> {
    /// The ticker that identifies this event.
    ticker: String,
    /// Whether at most one of the event's markets can settle "yes".
    mutually_exclusive: bool,
    /// The series that this event belongs to. The event looks things up in
    /// its series and does not own it.
    series: &'a Series,
}

/// An [`Event`] as a mathematical value.
pub struct EventView {
    pub ticker: Seq<char>,
    pub mutually_exclusive: bool,
    pub series: SeriesView,
}

impl<'a> View for Event<'a> {
    type V = EventView;

    closed spec fn view(&self) -> EventView {
        EventView {
            ticker: self.ticker@,
            mutually_exclusive: self.mutually_exclusive,
            series: self.series@,
        }
    }
}

impl<'a> Event<'a> {
    pub fn new(ticker: &str, mutually_exclusive: bool, series: &'a Series) -> (event: Self)
        ensures
            event@ == (EventView { ticker: ticker@, mutually_exclusive, series: series@ }),
    {
        Event { ticker: ticker.to_owned(), mutually_exclusive, series }
    }

    /// The text of this event: its ticker.
    pub fn to_string(&self) -> (text: String)
        ensures
            text@ == self@.ticker,
    {
        self.ticker.clone()
    }

    /// The text of this event for a log: the word "MECENT", a space, and its
    /// ticker.
    pub fn to_debug_string(&self) -> (text: String)
        ensures
            text@ == "MECENT "@ + self@.ticker,
    {
        let mut text = "MECENT ".to_owned();
        text.append(self.ticker.as_str());
        text
    }
}

} // verus!
