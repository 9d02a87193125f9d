use vstd::prelude::*;
use vstd::string::StringExecFns;
use crate::point::Point;

verus! {

/// The KML placemark document for the coordinate renderings `lat` and
/// `lon`: a fixed template whose `<coordinates>` element holds
/// `<lon>,<lat>,0`, in KML's longitude-first order. The fragment stops after
/// `</Placemark>`, leaving `Document` and `kml` unclosed, exactly as the
/// tool has always emitted it.
pub open spec fn spec_kml(lat: Seq<char>, lon: Seq<char>) -> Seq<char> {
    "<kml xmlns=\"http://www.opengis.net/kml/2.2\">\n    <Document>\n    <name>ISS Location</name>\n    <NetworkLink>\n    <Link>\n      <href>https://joeaustin.net/iss.kml</href>\n      <refreshMode>onInterval</refreshMode>\n      <refreshInterval>10</refreshInterval>\n    </Link>\n  </NetworkLink>\n    <Style id=\"default\">\n      <LabelStyle><scale>0</scale></LabelStyle>\n      <IconStyle><Icon>\n        <href>https://joeaustin.net/images/iss.png</href>\n        <hotSpot x=\"0.5\" y=\"0.5\" xunits=\"fraction\" yunits=\"fraction\"/>\n      </Icon></IconStyle>\n    </Style>\n    <Placemark>\n      <name>ISS</name>\n      <styleUrl>#default</styleUrl>\n      <Point><coordinates>"@
        + lon + ","@ + lat + ",0</coordinates></Point>\n    </Placemark>"@
}

/// Renders the point into the KML placemark document, deterministically:
/// the result is exactly `spec_kml` of the point's two coordinate texts.
pub fn create_kml(point: &Point) -> (r: String)
    ensures
        r@ == spec_kml(point.lat@, point.lon@),
{
    let mut out = String::from_str(
        "<kml xmlns=\"http://www.opengis.net/kml/2.2\">\n    <Document>\n    <name>ISS Location</name>\n    <NetworkLink>\n    <Link>\n      <href>https://joeaustin.net/iss.kml</href>\n      <refreshMode>onInterval</refreshMode>\n      <refreshInterval>10</refreshInterval>\n    </Link>\n  </NetworkLink>\n    <Style id=\"default\">\n      <LabelStyle><scale>0</scale></LabelStyle>\n      <IconStyle><Icon>\n        <href>https://joeaustin.net/images/iss.png</href>\n        <hotSpot x=\"0.5\" y=\"0.5\" xunits=\"fraction\" yunits=\"fraction\"/>\n      </Icon></IconStyle>\n    </Style>\n    <Placemark>\n      <name>ISS</name>\n      <styleUrl>#default</styleUrl>\n      <Point><coordinates>",
    );
    out.append(point.lon.as_str());
    out.append(",");
    out.append(point.lat.as_str());
    out.append(",0</coordinates></Point>\n    </Placemark>");
    proof {
        assert(out@ =~= spec_kml(point.lat@, point.lon@));
    }
    out
}

} // verus!
