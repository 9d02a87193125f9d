use vstd::prelude::*;
use vstd::string::StringExecFns;

verus! {

/// A geographic position in decimal degrees. Each coordinate is held as the
/// decimal text of its value, in the canonical rendering that the parser
/// produces; no range validation is performed.
#[derive(Debug, Clone, PartialEq, Eq)]
pub struct Point {
    pub lat: String,
    pub lon: String,
}

impl Point {
    pub fn new(lat: String, lon: String) -> (p: Point)
        ensures
            p.lat@ == lat@,
            p.lon@ == lon@,
    {
        Point { lat, lon }
    }

    /// The text rendering `[latitude: <lat>, longitude: <lon>]`.
    pub open spec fn spec_text(self) -> Seq<char> {
        "[latitude: "@ + self.lat@ + ", longitude: "@ + self.lon@ + "]"@
    }

    /// Renders the point as `[latitude: <lat>, longitude: <lon>]`.
    pub fn to_text(&self) -> (r: String)
        ensures
            r@ == self.spec_text(),
    {
        let mut out = String::from_str("[latitude: ");
        out.append(self.lat.as_str());
        out.append(", longitude: ");
        out.append(self.lon.as_str());
        out.append("]");
        proof {
            assert(out@ =~= self.spec_text());
        }
        out
    }
}

} // verus!
