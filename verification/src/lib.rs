pub mod errors;
pub mod jsontext;
pub mod kml;
pub mod numtext;
pub mod parser;
pub mod point;
