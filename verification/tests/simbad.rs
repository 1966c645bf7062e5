//! The catalog-service response: integer parsing, column scanning and
//! field extraction, including a real document through the tokenizer.

use supernovas::error::Error;
use supernovas::parse::{parse_i64, parse_u16, parse_u8};
use supernovas::simbad::{
    scan_events, split_once_space, split_whitespace_bytes, strip_name_marker, SimbadFields,
    XmlEvent,
};
use supernovas::xml::votable_columns;

#[test]
fn parse_i64_accepts_plain_signed_decimals() {
    assert_eq!(parse_i64(b"91262"), Some(91262));
    assert_eq!(parse_i64(b"0"), Some(0));
    assert_eq!(parse_i64(b"-5"), Some(-5));
    assert_eq!(parse_i64(b"+7"), Some(7));
}

#[test]
fn parse_i64_rejects_malformed_text() {
    assert_eq!(parse_i64(b""), None);
    assert_eq!(parse_i64(b"+"), None);
    assert_eq!(parse_i64(b"-"), None);
    assert_eq!(parse_i64(b"12a"), None);
    assert_eq!(parse_i64(b" 12"), None);
    assert_eq!(parse_i64(b"1.5"), None);
    assert_eq!(parse_i64(b"--3"), None);
}

#[test]
fn parse_i64_honors_the_exact_range() {
    assert_eq!(parse_i64(b"9223372036854775807"), Some(i64::MAX));
    assert_eq!(parse_i64(b"9223372036854775808"), None);
    assert_eq!(parse_i64(b"-9223372036854775808"), Some(i64::MIN));
    assert_eq!(parse_i64(b"-9223372036854775809"), None);
    assert_eq!(parse_i64(b"99999999999999999999999"), None);
}

#[test]
fn parse_small_unsigned_integers() {
    assert_eq!(parse_u8(b"18"), Some(18));
    assert_eq!(parse_u8(b"+3"), Some(3));
    assert_eq!(parse_u8(b"255"), Some(255));
    assert_eq!(parse_u8(b"256"), None);
    assert_eq!(parse_u8(b"-1"), None);
    assert_eq!(parse_u16(b"38"), Some(38));
    assert_eq!(parse_u16(b"65535"), Some(65535));
    assert_eq!(parse_u16(b"65536"), None);
    assert_eq!(parse_u16(b"-2"), None);
}

#[test]
fn whitespace_split_finds_the_tokens() {
    let t = split_whitespace_bytes(b"18 36 56.33635");
    assert_eq!(t.len(), 3);
    assert_eq!(t[0].as_slice(), b"18");
    assert_eq!(t[1].as_slice(), b"36");
    assert_eq!(t[2].as_slice(), b"56.33635");

    let t = split_whitespace_bytes(b"  +38\t47  1.2802 ");
    assert_eq!(t.len(), 3);
    assert_eq!(t[0].as_slice(), b"+38");

    assert!(split_whitespace_bytes(b"   ").is_empty());
    assert!(split_whitespace_bytes(b"").is_empty());
}

#[test]
fn space_split_divides_catalog_pairings() {
    let (code, num) = split_once_space(b"HIP 91262").unwrap();
    assert_eq!(code.as_slice(), b"HIP");
    assert_eq!(num.as_slice(), b"91262");
    assert!(split_once_space(b"unpaired").is_none());
    let (code, num) = split_once_space(b"a b c").unwrap();
    assert_eq!(code.as_slice(), b"a");
    assert_eq!(num.as_slice(), b"b c");
}

#[test]
fn name_marker_is_stripped_only_when_present() {
    assert_eq!(strip_name_marker(b"NAME Vega").as_slice(), b"Vega");
    assert_eq!(strip_name_marker(b"Vega").as_slice(), b"Vega");
    assert_eq!(strip_name_marker(b"RENAMED").as_slice(), b"RENAMED");
    assert_eq!(strip_name_marker(b"NAME ").as_slice(), b"");
}

fn text(t: &[u8]) -> XmlEvent {
    XmlEvent::Text(t.to_vec())
}

fn start(n: &[u8]) -> XmlEvent {
    XmlEvent::Start(n.to_vec())
}

fn end(n: &[u8]) -> XmlEvent {
    XmlEvent::End(n.to_vec())
}

#[test]
fn scan_collects_cell_text_in_order() {
    let events = vec![
        start(b"TABLE"),
        start(b"TD"),
        text(b"NAME Vega"),
        end(b"TD"),
        start(b"TD"),
        text(b"HIP 91262"),
        end(b"TD"),
        end(b"TABLE"),
    ];
    let cols = scan_events(&events);
    assert_eq!(cols.len(), 2);
    assert_eq!(cols[0].as_slice(), b"NAME Vega");
    assert_eq!(cols[1].as_slice(), b"HIP 91262");
}

#[test]
fn scan_records_an_empty_cell_as_an_empty_column() {
    let events = vec![
        start(b"TD"),
        end(b"TD"),
        start(b"TD"),
        text(b"x"),
        end(b"TD"),
        start(b"TR"),
        text(b"stray"),
        end(b"TR"),
    ];
    let cols = scan_events(&events);
    assert_eq!(cols.len(), 2);
    assert_eq!(cols[0].as_slice(), b"");
    assert_eq!(cols[1].as_slice(), b"x");
}

fn vega_columns() -> Vec<Vec<u8>> {
    vec![
        b"NAME Vega".to_vec(),
        b"HIP 91262".to_vec(),
        b"18 36 56.33635".to_vec(),
        b"+38 47 1.2802".to_vec(),
        b"200.94".to_vec(),
        b"286.23".to_vec(),
        b"130.23".to_vec(),
        b"-13.50".to_vec(),
    ]
}

#[test]
fn fields_read_out_of_the_vega_columns() {
    let f = SimbadFields::from_columns(&vega_columns()).unwrap();
    assert_eq!(f.name.as_slice(), b"Vega");
    assert_eq!(f.catalog.as_slice(), b"HIP");
    assert_eq!(f.number, 91262);
    assert_eq!(f.ra_hours, 18);
    assert_eq!(f.ra_minutes, 36);
    assert_eq!(f.ra_seconds.as_slice(), b"56.33635");
    assert_eq!(f.dec_degrees, 38);
    assert_eq!(f.dec_minutes, 47);
    assert_eq!(f.dec_seconds.as_slice(), b"1.2802");
    assert_eq!(f.pm_ra.as_slice(), b"200.94");
    assert_eq!(f.pm_dec.as_slice(), b"286.23");
    assert_eq!(f.parallax.as_slice(), b"130.23");
    assert_eq!(f.rad_vel.as_slice(), b"-13.50");
}

#[test]
fn missing_catalog_pairing_defaults_to_empty_and_zero() {
    let mut cols = vega_columns();
    cols[1] = b"unpaired".to_vec();
    let f = SimbadFields::from_columns(&cols).unwrap();
    assert_eq!(f.catalog.as_slice(), b"");
    assert_eq!(f.number, 0);
}

#[test]
fn short_or_malformed_columns_are_a_parse_failure() {
    let mut cols = vega_columns();
    cols.pop();
    assert_eq!(SimbadFields::from_columns(&cols).unwrap_err(), Error::Parse);

    let mut cols = vega_columns();
    cols[1] = b"HIP x".to_vec();
    assert_eq!(SimbadFields::from_columns(&cols).unwrap_err(), Error::Parse);

    let mut cols = vega_columns();
    cols[2] = b"18 36".to_vec();
    assert_eq!(SimbadFields::from_columns(&cols).unwrap_err(), Error::Parse);

    let mut cols = vega_columns();
    cols[3] = b"-38 47 1.28".to_vec();
    assert_eq!(SimbadFields::from_columns(&cols).unwrap_err(), Error::Parse);
}

#[test]
fn a_real_document_runs_through_the_tokenizer() {
    let xml = b"<VOTABLE><TABLEDATA><TR>\
        <TD>NAME Vega</TD><TD>HIP 91262</TD>\
        <TD>18 36 56.33635</TD><TD>+38 47 1.2802</TD>\
        <TD>200.94</TD><TD>286.23</TD><TD>130.23</TD><TD>-13.50</TD>\
        </TR></TABLEDATA></VOTABLE>";
    let cols = votable_columns(xml);
    assert_eq!(cols.len(), 8);
    assert_eq!(cols[0].as_slice(), b"NAME Vega");
    assert_eq!(cols[3].as_slice(), b"+38 47 1.2802");
    let f = SimbadFields::from_columns(&cols).unwrap();
    assert_eq!(f.name.as_slice(), b"Vega");
    assert_eq!(f.number, 91262);
}

#[test]
fn the_tokenizer_unescapes_cell_text() {
    let xml = b"<T><TD>a&amp;b</TD><TD></TD></T>";
    let cols = votable_columns(xml);
    assert_eq!(cols.len(), 2);
    assert_eq!(cols[0].as_slice(), b"a&b");
    assert_eq!(cols[1].as_slice(), b"");
}
