use iss_position::errors::FetchError;
use iss_position::parser::parse_point_from_json;

fn body(message: &str, lat: &str, lon: &str) -> String {
    format!(
        "{{\"message\":{},\"iss_position\":{{\"latitude\":{},\"longitude\":{}}}}}",
        message, lat, lon
    )
}

#[test]
fn valid_body_yields_point() {
    let text = body("\"success\"", "\"12.345\"", "\"-67.89\"");
    let p = parse_point_from_json(&text).unwrap();
    assert_eq!(p.lat, "12.345");
    assert_eq!(p.lon, "-67.89");
}

#[test]
fn valid_body_preserves_values() {
    let text = body("\"success\"", "\"48.8566\"", "\"2.3522\"");
    let p = parse_point_from_json(&text).unwrap();
    assert_eq!(p.lat.parse::<f64>().unwrap(), "48.8566".parse::<f64>().unwrap());
    assert_eq!(p.lon.parse::<f64>().unwrap(), "2.3522".parse::<f64>().unwrap());
}

#[test]
fn extra_members_are_ignored() {
    let text = "{\"timestamp\":1,\"message\":\"success\",\"iss_position\":{\"latitude\":\"1.5\",\"longitude\":\"-2.5\"}}".to_string();
    let p = parse_point_from_json(&text).unwrap();
    assert_eq!(p.lat, "1.5");
    assert_eq!(p.lon, "-2.5");
}

#[test]
fn coordinates_are_normalized() {
    let text = body("\"success\"", "\"0.0000\"", "\"1.5e1\"");
    let p = parse_point_from_json(&text).unwrap();
    assert_eq!(p.lat, "0");
    assert_eq!(p.lon, "15");
}

#[test]
fn wrong_message_fails() {
    let text = body("\"failure\"", "\"12.345\"", "\"-67.89\"");
    assert_eq!(parse_point_from_json(&text), Err(FetchError::ParserError));
}

#[test]
fn message_as_number_fails() {
    let text = body("1", "\"12.345\"", "\"-67.89\"");
    assert_eq!(parse_point_from_json(&text), Err(FetchError::ParserError));
}

#[test]
fn missing_message_fails() {
    let text = "{\"iss_position\":{\"latitude\":\"1\",\"longitude\":\"2\"}}".to_string();
    assert_eq!(parse_point_from_json(&text), Err(FetchError::ParserError));
}

#[test]
fn missing_latitude_fails() {
    let text = "{\"message\":\"success\",\"iss_position\":{\"longitude\":\"-67.89\"}}".to_string();
    assert_eq!(parse_point_from_json(&text), Err(FetchError::ParserError));
}

#[test]
fn missing_position_object_fails() {
    let text = "{\"message\":\"success\"}".to_string();
    assert_eq!(parse_point_from_json(&text), Err(FetchError::ParserError));
}

#[test]
fn numeric_coordinate_fails() {
    let text = body("\"success\"", "\"12.345\"", "-67.89");
    assert_eq!(parse_point_from_json(&text), Err(FetchError::ParserError));
}

#[test]
fn malformed_json_fails() {
    let text = "{\"message\":\"success\"".to_string();
    assert_eq!(parse_point_from_json(&text), Err(FetchError::ParserError));
}

#[test]
fn garbage_text_fails() {
    let text = "not a json document".to_string();
    assert_eq!(parse_point_from_json(&text), Err(FetchError::ParserError));
}

#[test]
fn empty_body_fails() {
    let text = String::new();
    assert_eq!(parse_point_from_json(&text), Err(FetchError::ParserError));
}

#[test]
fn non_numeric_coordinate_string_fails() {
    let text = body("\"success\"", "\"abc\"", "\"-67.89\"");
    assert_eq!(
        parse_point_from_json(&text),
        Err(FetchError::InvalidCoordinateFormat)
    );
}

#[test]
fn doubled_decimal_point_fails() {
    let text = body("\"success\"", "\"12.5\"", "\"1.2.3\"");
    assert_eq!(
        parse_point_from_json(&text),
        Err(FetchError::InvalidCoordinateFormat)
    );
}

#[test]
fn error_messages() {
    assert_eq!(
        FetchError::RequestFailedError.message(),
        "request was unsuccessful"
    );
    assert_eq!(
        FetchError::InvalidResponse.message(),
        "the received response was not successful"
    );
    assert_eq!(FetchError::ParserError.message(), "unable to parse the response");
    assert_eq!(
        FetchError::InvalidCoordinateFormat.message(),
        "unable to parse the coordinate values"
    );
}
