//! Series: recurring groups of events.

use vstd::prelude::*;
use vstd::string::StringExecFns;

verus! {

/// A group of events that recur with one cadence.
pub struct Series {
    /// The ticker that identifies this series.
    pub ticker: String,
    /// How often the series recurs, in words: "weekly", "daily", "one-off".
    /// No set of values is fixed.
    pub frequency: String,
}

/// A [`Series`] as a mathematical value.
pub struct SeriesView {
    pub ticker: Seq<char>,
    pub frequency: Seq<char>,
}

impl View for Series {
    type V = SeriesView;

    open spec fn view(&self) -> SeriesView {
        SeriesView { ticker: self.ticker@, frequency: self.frequency@ }
    }
}

impl Series {
    pub fn new(ticker: String, frequency: String) -> (series: Self)
        ensures
            series.ticker == ticker,
            series.frequency == frequency,
    {
        Series { ticker, frequency }
    }

    /// The text of this series: its ticker, a comma and a space, and its
    /// frequency.
    pub fn to_string(&self) -> (text: String)
        ensures
            text@ == self@.ticker + ", "@ + self@.frequency,
    {
        let mut text = self.ticker.clone();
        text.append(", ");
        text.append(self.frequency.as_str());
        text
    }
}

} // verus!
