//! Understanding the external catalog service's tabular response.
//!
//! The service answers a VOTable document whose table cells, in fixed
//! column order, are: object name, "catalog number", right ascension as
//! "h m s", declination as "d m s", proper motion in RA, proper motion
//! in declination, parallax, and radial velocity.  This module scans
//! the document's cell events into a column list and reads the typed
//! fields out of the columns.  Networking and the XML tokenizer live at
//! the boundary; everything here is a function of the plain values they
//! hand over.

use vstd::prelude::*;
use vstd::slice::slice_to_vec;

use crate::error::Error;
use crate::parse::{parse_i64, parse_u16, parse_u8};

verus! {

/// One event of the service's XML response, reduced to plain values.
#[derive(Debug, Clone, PartialEq, Eq)]
pub enum XmlEvent {
    /// An element opens; its name.
    Start(Vec<u8>),
    /// Character data, unescaped.
    Text(Vec<u8>),
    /// An element closes; its name.
    End(Vec<u8>),
    /// The end of the document.
    Eof,
    /// Any other event: declarations, comments, empty elements, and
    /// anything the tokenizer could not understand.
    Other,
}

/// The name of a table-cell element.
pub open spec fn td_name() -> Seq<u8> {
    seq![84u8, 68u8]
}

/// Whether `n` is the table-cell element name (ASCII "TD").
pub fn is_td(n: &Vec<u8>) -> (b: bool)
    ensures
        b == (n@ == td_name()),
{
    let r = n.len() == 2 && n[0] == 84 && n[1] == 68;
    proof {
        if r {
            assert(n@ =~= td_name());
        }
    }
    r
}

/// The spec-level state of a column scan.
#[verifier::ext_equal]
pub ghost struct ScanModel {
    /// Whether the scan stands inside an open table cell.
    pub td_open: bool,
    /// Whether the open cell has yielded character data yet.
    pub td_text_seen: bool,
    /// The cell contents collected so far, in document order.
    pub columns: Seq<Seq<u8>>,
}

/// The state a scan starts in: outside any cell, nothing collected.
pub open spec fn scan_init() -> ScanModel {
    ScanModel { td_open: false, td_text_seen: false, columns: Seq::empty() }
}

/// How one event advances a column scan: a cell opening arms text
/// collection, character data inside a cell becomes a column, and a
/// cell that closes without having yielded any character data becomes
/// an empty column.
pub open spec fn scan_step(m: ScanModel, e: XmlEvent) -> ScanModel {
    match e {
        XmlEvent::Start(n) => if n@ == td_name() {
            ScanModel { td_open: true, td_text_seen: m.td_text_seen, columns: m.columns }
        } else {
            m
        },
        XmlEvent::Text(t) => if m.td_open {
            ScanModel { td_open: m.td_open, td_text_seen: true, columns: m.columns.push(t@) }
        } else {
            m
        },
        XmlEvent::End(n) => if n@ == td_name() {
            ScanModel {
                td_open: false,
                td_text_seen: false,
                columns: if m.td_text_seen {
                    m.columns
                } else {
                    m.columns.push(Seq::empty())
                },
            }
        } else {
            m
        },
        XmlEvent::Eof => m,
        XmlEvent::Other => m,
    }
}

/// The state a whole event sequence scans to.
pub open spec fn scan_fold(events: Seq<XmlEvent>) -> ScanModel
    decreases events.len(),
{
    if events.len() == 0 {
        scan_init()
    } else {
        scan_step(scan_fold(events.drop_last()), events.last())
    }
}

/// A running column scan over the service's response events.
#[derive(Debug)]
pub struct VoTableScan {
    td_open: bool,
    td_text_seen: bool,
    columns: Vec<Vec<u8>>,
}

impl VoTableScan {
    /// The spec-level state this scan stands in.
    pub closed spec fn model(&self) -> ScanModel {
        ScanModel {
            td_open: self.td_open,
            td_text_seen: self.td_text_seen,
            columns: self.columns.deep_view(),
        }
    }

    /// A scan in the starting state.
    pub fn new() -> (s: VoTableScan)
        ensures
            s.model() == scan_init(),
    {
        let s = VoTableScan { td_open: false, td_text_seen: false, columns: Vec::new() };
        proof {
            assert(s.model() =~~= scan_init());
        }
        s
    }

    /// Advance the scan by one event.
    pub fn step(&mut self, e: &XmlEvent)
        ensures
            final(self).model() == scan_step(old(self).model(), *e),
    {
        match e {
            XmlEvent::Start(n) => {
                if is_td(n) {
                    self.td_open = true;
                }
            },
            XmlEvent::Text(t) => {
                if self.td_open {
                    self.columns.push(slice_to_vec(t.as_slice()));
                    self.td_text_seen = true;
                }
            },
            XmlEvent::End(n) => {
                if is_td(n) {
                    self.td_open = false;
                    if !self.td_text_seen {
                        self.columns.push(Vec::new());
                    }
                    self.td_text_seen = false;
                }
            },
            XmlEvent::Eof => {},
            XmlEvent::Other => {},
        }
        proof {
            assert(final(self).model() =~~= scan_step(old(self).model(), *e));
        }
    }

    /// The columns collected so far, giving the scan up.
    pub fn into_columns(self) -> (cols: Vec<Vec<u8>>)
        ensures
            cols.deep_view() == self.model().columns,
    {
        self.columns
    }
}

/// Scan a whole event sequence into its columns.
pub fn scan_events(events: &Vec<XmlEvent>) -> (cols: Vec<Vec<u8>>)
    ensures
        cols.deep_view() == scan_fold(events@).columns,
{
    let mut scan = VoTableScan::new();
    let mut i: usize = 0;
    while i < events.len()
        invariant
            0 <= i <= events@.len(),
            scan.model() == scan_fold(events@.take(i as int)),
        decreases events@.len() - i,
    {
        proof {
            assert(events@.take(i + 1).drop_last() =~= events@.take(i as int));
            assert(events@.take(i + 1).last() == events@[i as int]);
        }
        scan.step(&events[i]);
        i = i + 1;
    }
    proof {
        assert(events@.take(i as int) =~= events@);
    }
    scan.into_columns()
}

/// Whether `b` is ASCII whitespace, as the coordinate columns are
/// tokenized by.
pub open spec fn is_space(b: u8) -> bool {
    b == 32 || (9 <= b && b <= 13)
}

/// Splitting into whitespace-separated tokens, one byte at a time:
/// `cur` is the token under construction, `acc` the tokens already
/// complete.
pub open spec fn split_ws_acc(s: Seq<u8>, cur: Seq<u8>, acc: Seq<Seq<u8>>) -> Seq<Seq<u8>>
    decreases s.len(),
{
    if s.len() == 0 {
        if cur.len() > 0 {
            acc.push(cur)
        } else {
            acc
        }
    } else if is_space(s[0]) {
        if cur.len() > 0 {
            split_ws_acc(s.drop_first(), Seq::empty(), acc.push(cur))
        } else {
            split_ws_acc(s.drop_first(), Seq::empty(), acc)
        }
    } else {
        split_ws_acc(s.drop_first(), cur.push(s[0]), acc)
    }
}

/// The whitespace-separated tokens of `s`, in order; never an empty
/// token.
pub open spec fn spec_split_ws(s: Seq<u8>) -> Seq<Seq<u8>> {
    split_ws_acc(s, Seq::empty(), Seq::empty())
}

/// Split `s` into its whitespace-separated tokens.
pub fn split_whitespace_bytes(s: &[u8]) -> (tokens: Vec<Vec<u8>>)
    ensures
        tokens.deep_view() == spec_split_ws(s@),
{
    let mut acc: Vec<Vec<u8>> = Vec::new();
    let mut cur: Vec<u8> = Vec::new();
    let mut i: usize = 0;
    proof {
        assert(s@.skip(0) =~= s@);
        assert(acc.deep_view() =~~= Seq::<Seq<u8>>::empty());
        assert(cur@ =~= Seq::<u8>::empty());
    }
    while i < s.len()
        invariant
            0 <= i <= s@.len(),
            split_ws_acc(s@.skip(i as int), cur@, acc.deep_view()) == spec_split_ws(s@),
        decreases s@.len() - i,
    {
        proof {
            assert(s@.skip(i as int).drop_first() =~= s@.skip(i + 1));
            assert(s@.skip(i as int)[0] == s@[i as int]);
        }
        let ghost prev_acc = acc.deep_view();
        let ghost prev_cur = cur@;
        let b = s[i];
        if b == 32 || (9 <= b && b <= 13) {
            if cur.len() > 0 {
                acc.push(cur);
                cur = Vec::new();
                proof {
                    assert(acc.deep_view() =~~= prev_acc.push(prev_cur));
                    assert(cur@ =~= Seq::<u8>::empty());
                }
            } else {
                proof {
                    assert(cur@ =~= Seq::<u8>::empty());
                }
            }
        } else {
            cur.push(b);
        }
        i = i + 1;
    }
    proof {
        assert(s@.skip(i as int) =~= Seq::<u8>::empty());
    }
    let ghost last_acc = acc.deep_view();
    let ghost last_cur = cur@;
    if cur.len() > 0 {
        acc.push(cur);
        proof {
            assert(acc.deep_view() =~~= last_acc.push(last_cur));
        }
    }
    acc
}

/// Splitting at the first space byte, as the "catalog number" column is
/// divided: the part before the first space and the part after it, or
/// nothing when the column holds no space at all.
pub open spec fn spec_split_once_space(s: Seq<u8>) -> Option<(Seq<u8>, Seq<u8>)>
    decreases s.len(),
{
    if s.len() == 0 {
        None
    } else if s[0] == 32 {
        Some((Seq::empty(), s.drop_first()))
    } else {
        match spec_split_once_space(s.drop_first()) {
            None => None,
            Some((before, after)) => Some((seq![s[0]] + before, after)),
        }
    }
}

/// A text free of spaces up to `j`, with a space at `j`, splits there.
proof fn lemma_split_once_space_at(s: Seq<u8>, j: int)
    requires
        0 <= j < s.len(),
        forall|k: int| 0 <= k < j ==> s[k] != 32,
        s[j] == 32,
    ensures
        spec_split_once_space(s) == Some((s.take(j), s.skip(j + 1))),
    decreases j,
{
    if j == 0 {
        assert(s.take(0) =~= Seq::<u8>::empty());
        assert(s.skip(1) =~= s.drop_first());
    } else {
        lemma_split_once_space_at(s.drop_first(), j - 1);
        assert(seq![s[0]] + s.drop_first().take(j - 1) =~= s.take(j));
        assert(s.drop_first().skip(j) =~= s.skip(j + 1));
    }
}

/// A text with no space at all does not split.
proof fn lemma_split_once_space_none(s: Seq<u8>)
    requires
        forall|k: int| 0 <= k < s.len() ==> s[k] != 32,
    ensures
        spec_split_once_space(s) is None,
    decreases s.len(),
{
    if s.len() > 0 {
        lemma_split_once_space_none(s.drop_first());
    }
}

/// Split `s` at its first space byte, if it has one.
pub fn split_once_space(s: &[u8]) -> (r: Option<(Vec<u8>, Vec<u8>)>)
    ensures
        r is Some <==> spec_split_once_space(s@) is Some,
        r matches Some((before, after)) ==> spec_split_once_space(s@) == Some((before@, after@)),
{
    let mut j: usize = 0;
    while j < s.len()
        invariant
            0 <= j <= s@.len(),
            forall|k: int| 0 <= k < j ==> s@[k] != 32,
        decreases s@.len() - j,
    {
        if s[j] == 32 {
            let before = slice_to_vec(vstd::slice::slice_subrange(s, 0, j));
            let after = slice_to_vec(vstd::slice::slice_subrange(s, j + 1, s.len()));
            proof {
                lemma_split_once_space_at(s@, j as int);
                assert(before@ =~= s@.take(j as int));
                assert(after@ =~= s@.skip(j + 1));
            }
            return Some((before, after));
        }
        j = j + 1;
    }
    proof {
        lemma_split_once_space_none(s@);
    }
    None
}

/// The marker the service puts in front of common or historical names.
pub open spec fn name_marker() -> Seq<u8> {
    seq![78u8, 65u8, 77u8, 69u8, 32u8]
}

/// The object name with a leading "NAME " marker dropped.
pub open spec fn spec_strip_name(s: Seq<u8>) -> Seq<u8> {
    if s.len() >= 5 && s.take(5) == name_marker() {
        s.skip(5)
    } else {
        s
    }
}

/// Drop the leading "NAME " marker the service puts in front of common
/// or historical names; any other name passes unchanged.
pub fn strip_name_marker(s: &[u8]) -> (r: Vec<u8>)
    ensures
        r@ == spec_strip_name(s@),
{
    let marked = s.len() >= 5 && s[0] == 78 && s[1] == 65 && s[2] == 77 && s[3] == 69 && s[4]
        == 32;
    proof {
        if marked {
            assert(s@.take(5) =~= name_marker());
        } else if s@.len() >= 5 {
            assert(s@.take(5) != name_marker()) by {
                if s@.take(5) == name_marker() {
                    assert(s@[0] == 78 && s@[1] == 65 && s@[2] == 77 && s@[3] == 69 && s@[4]
                        == 32) by {
                        assert(s@.take(5)[0] == s@[0]);
                        assert(s@.take(5)[1] == s@[1]);
                        assert(s@.take(5)[2] == s@[2]);
                        assert(s@.take(5)[3] == s@[3]);
                        assert(s@.take(5)[4] == s@[4]);
                    }
                }
            }
        }
    }
    if marked {
        let rest = slice_to_vec(vstd::slice::slice_subrange(s, 5, s.len()));
        proof {
            assert(rest@ =~= s@.skip(5));
        }
        rest
    } else {
        slice_to_vec(s)
    }
}

/// The typed reading of a full column list: the validated text fields,
/// the parsed integer parts, and the real-valued columns still as the
/// decimal text the service sent, for the boundary to interpret.
#[derive(Debug, Clone, PartialEq, Eq)]
pub struct SimbadFields {
    /// The object name, its "NAME " marker stripped.
    pub name: Vec<u8>,
    /// The catalog code; empty when the catalog column held no pairing.
    pub catalog: Vec<u8>,
    /// The object number; zero when the catalog column held no pairing.
    pub number: i64,
    /// Right ascension, hours part.
    pub ra_hours: u8,
    /// Right ascension, minutes part.
    pub ra_minutes: u8,
    /// Right ascension, seconds part, as decimal text.
    pub ra_seconds: Vec<u8>,
    /// Declination, degrees part.
    pub dec_degrees: u16,
    /// Declination, arcminutes part.
    pub dec_minutes: u16,
    /// Declination, arcseconds part, as decimal text.
    pub dec_seconds: Vec<u8>,
    /// Proper motion in RA, mas/yr, as decimal text.
    pub pm_ra: Vec<u8>,
    /// Proper motion in declination, mas/yr, as decimal text.
    pub pm_dec: Vec<u8>,
    /// Parallax, mas, as decimal text.
    pub parallax: Vec<u8>,
    /// Radial velocity, km/s, as decimal text.
    pub rad_vel: Vec<u8>,
}

/// Whether a decimal text denotes a number `u8` holds.
pub open spec fn u8_text(s: Seq<u8>) -> bool {
    crate::parse::valid_int_text(s) && !crate::parse::int_text_negative(s)
        && crate::parse::int_text_value(s) <= u8::MAX
}

/// Whether a decimal text denotes a number `u16` holds.
pub open spec fn u16_text(s: Seq<u8>) -> bool {
    crate::parse::valid_int_text(s) && !crate::parse::int_text_negative(s)
        && crate::parse::int_text_value(s) <= u16::MAX
}

/// Whether a decimal text denotes a number `i64` holds.
pub open spec fn i64_text(s: Seq<u8>) -> bool {
    crate::parse::valid_int_text(s) && i64::MIN <= crate::parse::int_text_value(s) <= i64::MAX
}

/// Whether a column list can be read into fields: all eight columns
/// present, a parseable number beside any catalog code, and coordinate
/// columns whose first two tokens are integers of the expected sizes.
pub open spec fn spec_columns_ok(c: Seq<Seq<u8>>) -> bool {
    &&& c.len() >= 8
    &&& match spec_split_once_space(c[1]) {
        None => true,
        Some((code, num)) => i64_text(num),
    }
    &&& spec_split_ws(c[2]).len() >= 3
    &&& u8_text(spec_split_ws(c[2])[0])
    &&& u8_text(spec_split_ws(c[2])[1])
    &&& spec_split_ws(c[3]).len() >= 3
    &&& u16_text(spec_split_ws(c[3])[0])
    &&& u16_text(spec_split_ws(c[3])[1])
}

impl SimbadFields {
    /// Read the typed fields out of a scanned column list.
    ///
    /// Fails with [`Error::Parse`] exactly when the column list cannot
    /// be read: fewer than the eight fixed columns, a catalog pairing
    /// whose number part is not an integer, or a coordinate column
    /// without its three tokens in range.  A catalog column with no
    /// space-separated pairing reads as an empty catalog code and
    /// number zero.
    pub fn from_columns(columns: &Vec<Vec<u8>>) -> (r: Result<SimbadFields, Error>)
        ensures
            r is Ok <==> spec_columns_ok(columns.deep_view()),
            r matches Ok(f) ==> {
                let c = columns.deep_view();
                &&& f.name@ == spec_strip_name(c[0])
                &&& match spec_split_once_space(c[1]) {
                    None => f.catalog@ == Seq::<u8>::empty() && f.number == 0,
                    Some((code, num)) => f.catalog@ == code && f.number as int
                        == crate::parse::int_text_value(num),
                }
                &&& f.ra_hours as int == crate::parse::int_text_value(spec_split_ws(c[2])[0])
                &&& f.ra_minutes as int == crate::parse::int_text_value(spec_split_ws(c[2])[1])
                &&& f.ra_seconds@ == spec_split_ws(c[2])[2]
                &&& f.dec_degrees as int == crate::parse::int_text_value(spec_split_ws(c[3])[0])
                &&& f.dec_minutes as int == crate::parse::int_text_value(spec_split_ws(c[3])[1])
                &&& f.dec_seconds@ == spec_split_ws(c[3])[2]
                &&& f.pm_ra@ == c[4]
                &&& f.pm_dec@ == c[5]
                &&& f.parallax@ == c[6]
                &&& f.rad_vel@ == c[7]
            },
            r matches Err(e) ==> e == Error::Parse,
    {
        if columns.len() < 8 {
            return Err(Error::Parse);
        }
        proof {
            assert(columns@[0]@ == columns.deep_view()[0]);
            assert(columns@[1]@ == columns.deep_view()[1]);
            assert(columns@[2]@ == columns.deep_view()[2]);
            assert(columns@[3]@ == columns.deep_view()[3]);
            assert(columns@[4]@ == columns.deep_view()[4]);
            assert(columns@[5]@ == columns.deep_view()[5]);
            assert(columns@[6]@ == columns.deep_view()[6]);
            assert(columns@[7]@ == columns.deep_view()[7]);
        }
        let (catalog, number) = match split_once_space(columns[1].as_slice()) {
            None => (Vec::new(), 0i64),
            Some((code, num)) => {
                match parse_i64(num.as_slice()) {
                    None => {
                        return Err(Error::Parse);
                    },
                    Some(n) => (code, n),
                }
            },
        };
        let ra_parts = split_whitespace_bytes(columns[2].as_slice());
        if ra_parts.len() < 3 {
            return Err(Error::Parse);
        }
        proof {
            assert(ra_parts@[0]@ == ra_parts.deep_view()[0]);
            assert(ra_parts@[1]@ == ra_parts.deep_view()[1]);
            assert(ra_parts@[2]@ == ra_parts.deep_view()[2]);
        }
        let ra_hours = match parse_u8(ra_parts[0].as_slice()) {
            None => {
                return Err(Error::Parse);
            },
            Some(v) => v,
        };
        let ra_minutes = match parse_u8(ra_parts[1].as_slice()) {
            None => {
                return Err(Error::Parse);
            },
            Some(v) => v,
        };
        let dec_parts = split_whitespace_bytes(columns[3].as_slice());
        if dec_parts.len() < 3 {
            return Err(Error::Parse);
        }
        proof {
            assert(dec_parts@[0]@ == dec_parts.deep_view()[0]);
            assert(dec_parts@[1]@ == dec_parts.deep_view()[1]);
            assert(dec_parts@[2]@ == dec_parts.deep_view()[2]);
        }
        let dec_degrees = match parse_u16(dec_parts[0].as_slice()) {
            None => {
                return Err(Error::Parse);
            },
            Some(v) => v,
        };
        let dec_minutes = match parse_u16(dec_parts[1].as_slice()) {
            None => {
                return Err(Error::Parse);
            },
            Some(v) => v,
        };
        let name = strip_name_marker(columns[0].as_slice());
        Ok(SimbadFields {
            name,
            catalog,
            number,
            ra_hours,
            ra_minutes,
            ra_seconds: slice_to_vec(ra_parts[2].as_slice()),
            dec_degrees,
            dec_minutes,
            dec_seconds: slice_to_vec(dec_parts[2].as_slice()),
            pm_ra: slice_to_vec(columns[4].as_slice()),
            pm_dec: slice_to_vec(columns[5].as_slice()),
            parallax: slice_to_vec(columns[6].as_slice()),
            rad_vel: slice_to_vec(columns[7].as_slice()),
        })
    }
}

} // verus!
