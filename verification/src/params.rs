//! The coordinate pair a query is made for.

use vstd::prelude::*;

verus! {

/// A geographic coordinate pair, each component carried as the decimal
/// rendering of the requested value (for example `"35.68"` or `"-0.5"`).
///
/// The client performs no range checking on coordinates; any decimal
/// rendering is accepted and passed through to the query URL verbatim.
pub struct Parameters {
    pub latitude: String,
    pub longitude: String,
}

impl Parameters {
    /// Packs two rendered coordinate values into a parameter record.
    pub fn new(latitude: String, longitude: String) -> (r: Parameters)
        ensures
            r.latitude@ == latitude@,
            r.longitude@ == longitude@,
    {
        Parameters { latitude, longitude }
    }
}

} // verus!
