//! Series: recurring groups of events.

use vstd::prelude::*;
use vstd::string::StringExecFns;

verus! {

/// A group of events that recur with one cadence.
pub struct Series {
    /// The ticker that identifies this series.
    ticker: String,
    /// How often the series recurs, in words: "weekly", "daily", "one-off".
    /// No set of values is fixed.
    frequency: String,
}

/// A [`Series`] as a mathematical value.
pub struct SeriesView {
    pub ticker: Seq<char>,
    pub frequency: Seq<char>,
}

impl View for Series {
    type V = SeriesView;

    closed spec fn view(&self) -> SeriesView {
        SeriesView { ticker: self.ticker@, frequency: self.frequency@ }
    }
}

impl Series {
    pub fn new(ticker: String, frequency: String) -> (series: Self)
        ensures
            series@ == (SeriesView { ticker: ticker@, frequency: frequency@ }),
    {
        Series { ticker, frequency }
    }

    /// The text of this series: its ticker.
    pub fn to_string(&self) -> (text: String)
        ensures
            text@ == self@.ticker,
    {
        self.ticker.clone()
    }

    /// The text of this series for a log: its frequency in square brackets,
    /// a space, and its ticker.
    pub fn to_debug_string(&self) -> (text: String)
        ensures
            text@ == "["@ + self@.frequency + "] "@ + self@.ticker,
    {
        let mut text = "[".to_owned();
        text.append(self.frequency.as_str());
        text.append("] ");
        text.append(self.ticker.as_str());
        text
    }
}

} // verus!
