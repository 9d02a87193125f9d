use vstd::prelude::*;
use crate::errors::FetchError;
use crate::jsontext::json_member_eq;
use crate::jsontext::json_member_matches;
use crate::jsontext::json_nested_str;
use crate::jsontext::json_nested_string;
use crate::jsontext::json_parses;
use crate::numtext::normalize_number_str;
use crate::numtext::number_str_norm;
use crate::point::Point;

verus! {

/// What decoding a response body `s` owes: the pair of canonical coordinate
/// renderings on success, and otherwise the exact failure kind.
///
///  - A body that the `json` crate rejects fails with `ParserError`.
///  - So does one whose top-level member `message` is not the JSON string
///    `"success"`, or whose member `iss_position.latitude` or
///    `iss_position.longitude` is absent or not a JSON string.
///  - A coordinate string that is not a decimal number fails with
///    `InvalidCoordinateFormat`.
pub open spec fn spec_parse_point(s: Seq<char>) -> Result<(Seq<char>, Seq<char>), FetchError> {
    if !json_parses(s) {
        Err(FetchError::ParserError)
    } else if !(json_member_eq(s, "message"@, "success"@)
            && json_nested_str(s, "iss_position"@, "latitude"@) is Some
            && json_nested_str(s, "iss_position"@, "longitude"@) is Some) {
        Err(FetchError::ParserError)
    } else {
        let lat = number_str_norm(json_nested_str(s, "iss_position"@, "latitude"@)->0);
        let lon = number_str_norm(json_nested_str(s, "iss_position"@, "longitude"@)->0);
        if lat is Some && lon is Some {
            Ok((lat->0, lon->0))
        } else {
            Err(FetchError::InvalidCoordinateFormat)
        }
    }
}

/// Decodes a response body into a `Point` whose coordinates are the
/// canonical renderings of the `iss_position` fields, exactly as
/// `spec_parse_point` classifies the body.
pub fn parse_point_from_json(text: &String) -> (r: Result<Point, FetchError>)
    ensures
        r matches Ok(p) ==> spec_parse_point(text@) == Ok::<(Seq<char>, Seq<char>), FetchError>(
            (p.lat@, p.lon@),
        ),
        r matches Err(e) ==> spec_parse_point(text@) == Err::<(Seq<char>, Seq<char>), FetchError>(
            e,
        ),
{
    let is_success = json_member_matches(text.as_str(), "message", "success");
    let lat_string = json_nested_string(text.as_str(), "iss_position", "latitude");
    let lon_string = json_nested_string(text.as_str(), "iss_position", "longitude");
    match (is_success, lat_string, lon_string) {
        (Some(success), Some(lat_opt), Some(lon_opt)) => {
            if success {
                match (lat_opt, lon_opt) {
                    (Some(lat_raw), Some(lon_raw)) => {
                        match (normalize_number_str(lat_raw.as_str()), normalize_number_str(
                            lon_raw.as_str(),
                        )) {
                            (Some(lat), Some(lon)) => Ok(Point::new(lat, lon)),
                            _ => Err(FetchError::InvalidCoordinateFormat),
                        }
                    },
                    _ => Err(FetchError::ParserError),
                }
            } else {
                Err(FetchError::ParserError)
            }
        },
        (None, _, _) => Err(FetchError::ParserError),
        _ => {
            proof {
                assert(false);
            }
            Err(FetchError::ParserError)
        },
    }
}

} // verus!
