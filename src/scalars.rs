use vstd::prelude::*;
use vstd::arithmetic::power::pow;

verus! {

/// What `uuid::Uuid::parse_str` reads from a text, as the UUID's 128-bit value.
pub uninterp spec fn uuid_parsed(s: Seq<char>) -> Option<u128>;

/// The instant that chrono reads from an RFC 3339 text, rendered back in UTC.
pub uninterp spec fn utc_normalized(s: Seq<char>) -> Option<Seq<char>>;

/// The serialization of the URL that the `url` crate parses from a text.
pub uninterp spec fn url_serialized(s: Seq<char>) -> Option<Seq<char>>;

/// The text that `humantime::format_duration` writes for a duration.
pub uninterp spec fn duration_text(secs: u64, nanos: u32) -> Seq<char>;

/// The duration, as whole seconds and nanoseconds, that `humantime::parse_duration` reads.
pub uninterp spec fn duration_parsed(s: Seq<char>) -> Option<(u64, u32)>;

pub open spec fn hex_digit(d: int) -> char {
    seq!['0', '1', '2', '3', '4', '5', '6', '7', '8', '9', 'a', 'b', 'c', 'd', 'e', 'f'][d]
}

/// The `i`-th hexadecimal digit of `x`, counted from the most significant.
pub open spec fn uuid_nibble(x: u128, i: int) -> int {
    (x as int / pow(16, (31 - i) as nat)) % 16
}

/// How many dashes precede position `j` of the hyphenated form.
pub open spec fn dashes_before(j: int) -> int {
    if j < 8 {
        0
    } else if j < 13 {
        1
    } else if j < 18 {
        2
    } else if j < 23 {
        3
    } else {
        4
    }
}

/// The hyphenated lower-case form `xxxxxxxx-xxxx-xxxx-xxxx-xxxxxxxxxxxx` of a UUID.
pub open spec fn uuid_text(x: u128) -> Seq<char> {
    Seq::new(
        36,
        |j: int|
            if j == 8 || j == 13 || j == 18 || j == 23 {
                '-'
            } else {
                hex_digit(uuid_nibble(x, j - dashes_before(j)))
            },
    )
}

/// Relies on `uuid::Uuid::parse_str`, and on `Uuid::as_u128` for its value.
#[verifier::external_body]
fn parse_uuid(s: &str) -> (r: Option<u128>)
    ensures
        r == uuid_parsed(s@),
{
    match uuid::Uuid::parse_str(s) {
        Ok(u) => Some(u.as_u128()),
        Err(_) => None,
    }
}

/// Relies on `uuid::Uuid::from_u128` (big-endian) and its hyphenated lower-case
/// form, which is one of the forms that `parse_str` reads.
#[verifier::external_body]
fn format_uuid(x: u128) -> (r: String)
    ensures
        r@ == uuid_text(x),
        uuid_parsed(r@) == Some(x),
{
    uuid::Uuid::from_u128(x).hyphenated().to_string()
}

/// Relies on `url::Url::parse`, and on `Url::as_str` for the serialization.
#[verifier::external_body]
fn parse_url(s: &str) -> (r: Option<String>)
    ensures
        match r {
            Some(t) => url_serialized(s@) == Some(t@),
            None => url_serialized(s@) is None,
        },
{
    match url::Url::parse(s) {
        Ok(u) => Some(u.as_str().to_string()),
        Err(_) => None,
    }
}

/// Relies on chrono's RFC 3339 reading of `DateTime<FixedOffset>`, converted to
/// UTC, and on `to_rfc3339_opts` with automatic sub-second digits and `Z`.
#[verifier::external_body]
fn normalize_utc(s: &str) -> (r: Option<String>)
    ensures
        match r {
            Some(t) => utc_normalized(s@) == Some(t@),
            None => utc_normalized(s@) is None,
        },
{
    match s.parse::<chrono::DateTime<chrono::FixedOffset>>() {
        Ok(d) => Some(
            d.with_timezone(&chrono::Utc).to_rfc3339_opts(chrono::SecondsFormat::AutoSi, true),
        ),
        Err(_) => None,
    }
}

/// Relies on `humantime::format_duration`, whose text `parse_duration` reads
/// back to the same value.
#[verifier::external_body]
fn format_duration(secs: u64, nanos: u32) -> (r: String)
    requires
        nanos < 1_000_000_000,
    ensures
        r@ == duration_text(secs, nanos),
        duration_parsed(r@) == Some((secs, nanos)),
{
    let d = std::time::Duration::new(secs, nanos);
    humantime_serde::re::humantime::format_duration(d).to_string()
}

/// Whether a character ends a run of a duration text: a unit letter or the
/// decimal point. Digits and spaces inside a run make up one number.
pub open spec fn ends_run(c: char) -> bool {
    ('a' <= c && c <= 'z') || ('A' <= c && c <= 'Z') || c == '.' || c == '\u{b5}'
}

/// Scans a duration text by runs: the digits in the last run, how many runs
/// hold a digit, and whether every run holds at most nine digits.
pub open spec fn digit_runs(s: Seq<char>) -> (nat, nat, bool)
    decreases s.len(),
{
    if s.len() == 0 {
        (0, 0, true)
    } else {
        let (cur, runs, short) = digit_runs(s.drop_last());
        let c = s.last();
        if ends_run(c) {
            (0, runs, short)
        } else if '0' <= c && c <= '9' {
            (cur + 1, if cur == 0 { runs + 1 } else { runs }, short && cur + 1 <= 9)
        } else {
            (cur, runs, short)
        }
    }
}

/// A duration text whose value stays far below `u64::MAX` seconds: each
/// number it holds is below 10^9, in at most 100 spans, each of at most a
/// year (31 557 600 s) per unit plus a fraction of one unit.
pub open spec fn duration_in_reach(s: Seq<char>) -> bool {
    digit_runs(s).2 && digit_runs(s).1 <= 100
}

/// The duration that a text gives, where it is in reach.
pub open spec fn elapsed_parsed(s: Seq<char>) -> Option<(u64, u32)> {
    if duration_in_reach(s) {
        duration_parsed(s)
    } else {
        None
    }
}

/// Tells whether a duration text is in reach.
pub fn check_duration_reach(s: &str) -> (r: bool)
    ensures
        r == duration_in_reach(s@),
{
    let n = s.unicode_len();
    let mut i: usize = 0;
    let mut cur: usize = 0;
    let mut runs: usize = 0;
    let mut short = true;
    while i < n
        invariant
            n == s@.len(),
            i <= n,
            cur <= i,
            runs <= i,
            digit_runs(s@.subrange(0, i as int)) == (cur as nat, runs as nat, short),
        decreases n - i,
    {
        let c = s.get_char(i);
        assert(s@.subrange(0, i + 1).drop_last() =~= s@.subrange(0, i as int));
        if ('a' <= c && c <= 'z') || ('A' <= c && c <= 'Z') || c == '.' || c == '\u{b5}' {
            cur = 0;
        } else if '0' <= c && c <= '9' {
            if cur == 0 {
                runs = runs + 1;
            }
            cur = cur + 1;
            short = short && cur <= 9;
        }
        i = i + 1;
    }
    assert(s@.subrange(0, n as int) =~= s@);
    short && runs <= 100
}

/// Relies on `humantime::parse_duration`; a `Duration` keeps its
/// sub-second part under one second. Its sums carry nanoseconds into
/// seconds through `Duration::new`, which panics when the seconds overflow;
/// a text in reach stays far from that.
#[verifier::external_body]
fn parse_duration(s: &str) -> (r: Option<(u64, u32)>)
    requires
        duration_in_reach(s@),
    ensures
        r == duration_parsed(s@),
        r matches Some(p) ==> p.1 < 1_000_000_000,
{
    match humantime_serde::re::humantime::parse_duration(s) {
        Ok(d) => Some((d.as_secs(), d.subsec_nanos())),
        Err(_) => None,
    }
}

/// A UUID, held as its 128-bit value.
#[derive(Clone, Copy, Debug, PartialEq, Eq, Structural)]
pub struct Uuid {
    pub value: u128,
}

impl Uuid {
    /// The text written for this UUID reads back to it.
    pub open spec fn reads_back(self) -> bool {
        uuid_parsed(uuid_text(self.value)) == Some(self.value)
    }

    /// Reads a UUID in any of the textual forms that the `uuid` crate accepts.
    pub fn parse(s: &str) -> (r: Option<Uuid>)
        ensures
            match r {
                Some(u) => uuid_parsed(s@) == Some(u.value),
                None => uuid_parsed(s@) is None,
            },
    {
        match parse_uuid(s) {
            Some(v) => Some(Uuid { value: v }),
            None => None,
        }
    }

    /// The hyphenated lower-case text of this UUID.
    pub fn to_text(&self) -> (r: String)
        ensures
            r@ == uuid_text(self.value),
            uuid_parsed(r@) == Some(self.value),
    {
        format_uuid(self.value)
    }
}

/// An elapsed time: whole seconds and the nanoseconds beyond them.
#[derive(Clone, Copy, Debug, PartialEq, Eq, Structural)]
pub struct Elapsed {
    pub secs: u64,
    pub nanos: u32,
}

impl Elapsed {
    pub open spec fn wf(self) -> bool {
        self.nanos < 1_000_000_000
    }

    /// The text written for this duration is in reach and reads back to it;
    /// humantime guarantees the reading back for every duration.
    pub open spec fn reads_back(self) -> bool {
        &&& self.wf()
        &&& elapsed_parsed(duration_text(self.secs, self.nanos)) == Some((self.secs, self.nanos))
    }

    /// Reads a human-readable duration such as `15m` or `1h 30m`; text out of
    /// reach is refused.
    pub fn parse(s: &str) -> (r: Option<Elapsed>)
        ensures
            match r {
                Some(e) => elapsed_parsed(s@) == Some((e.secs, e.nanos)) && e.wf(),
                None => elapsed_parsed(s@) is None,
            },
    {
        if !check_duration_reach(s) {
            return None;
        }
        match parse_duration(s) {
            Some(p) => Some(Elapsed { secs: p.0, nanos: p.1 }),
            None => None,
        }
    }

    /// The human-readable text of this duration.
    pub fn to_text(&self) -> (r: String)
        requires
            self.wf(),
        ensures
            r@ == duration_text(self.secs, self.nanos),
            duration_parsed(r@) == Some((self.secs, self.nanos)),
    {
        format_duration(self.secs, self.nanos)
    }
}

/// An absolute URL, held as its serialization.
#[derive(Clone, Debug)]
pub struct Url {
    pub text: String,
}

impl View for Url {
    type V = Seq<char>;

    open spec fn view(&self) -> Seq<char> {
        self.text@
    }
}

/// A serialization is well formed when parsing it gives it back.
pub open spec fn url_wf(s: Seq<char>) -> bool {
    url_serialized(s) == Some(s)
}

impl Url {
    /// Parses an absolute URL and keeps its serialization.
    pub fn parse(s: &str) -> (r: Option<Url>)
        ensures
            match r {
                Some(u) => url_serialized(s@) == Some(u@),
                None => url_serialized(s@) is None,
            },
    {
        match parse_url(s) {
            Some(t) => Some(Url { text: t }),
            None => None,
        }
    }
}

/// An instant in UTC, held as its RFC 3339 text ending in `Z`.
#[derive(Clone, Debug)]
pub struct UtcTime {
    pub text: String,
}

impl View for UtcTime {
    type V = Seq<char>;

    open spec fn view(&self) -> Seq<char> {
        self.text@
    }
}

/// A text is well formed when reading and rendering it again gives it back.
pub open spec fn utc_wf(s: Seq<char>) -> bool {
    utc_normalized(s) == Some(s)
}

impl UtcTime {
    /// Reads an RFC 3339 instant, with any offset, and keeps it in UTC.
    pub fn parse(s: &str) -> (r: Option<UtcTime>)
        ensures
            match r {
                Some(u) => utc_normalized(s@) == Some(u@),
                None => utc_normalized(s@) is None,
            },
    {
        match normalize_utc(s) {
            Some(t) => Some(UtcTime { text: t }),
            None => None,
        }
    }
}

} // verus!
