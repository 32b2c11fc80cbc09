use vstd::prelude::*;
use crate::model::{DecodeError, RequestType};

verus! {

/// The marker written before an event's date on the wire.
pub open spec fn date_prefix() -> Seq<char> {
    "Date: "@
}

/// The wire text of a date: the marker, then the date verbatim.
pub open spec fn tag_date(date: Seq<char>) -> Seq<char> {
    date_prefix() + date
}

/// The date inside a wire text, which must start with the marker.
pub open spec fn untag_date(s: Seq<char>) -> Result<Seq<char>, DecodeError> {
    let n = date_prefix().len() as int;
    if s.len() >= n && s.subrange(0, n) == date_prefix() {
        Ok(s.subrange(n, s.len() as int))
    } else {
        Err(DecodeError::CustomCodec)
    }
}

/// Writes a date as its wire text.
pub fn encode_date(date: &str) -> (r: String)
    ensures
        r@ == tag_date(date@),
{
    let mut r = String::from_str("Date: ");
    r.append(date);
    r
}

/// Reads a date from its wire text, stripping the leading marker.
pub fn decode_date(s: &str) -> (r: Result<String, DecodeError>)
    ensures
        match r {
            Ok(d) => untag_date(s@) == Ok::<Seq<char>, DecodeError>(d@),
            Err(e) => untag_date(s@) == Err::<Seq<char>, DecodeError>(e),
        },
{
    proof {
        reveal_strlit("Date: ");
    }
    let n = s.unicode_len();
    if n >= 6 {
        let head = String::from_str(s.substring_char(0, 6));
        if head == String::from_str("Date: ") {
            return Ok(String::from_str(s.substring_char(6, n)));
        }
    }
    Err(DecodeError::CustomCodec)
}

/// A date read back from the text written for it is the date itself.
pub proof fn lemma_date_round_trip(date: Seq<char>)
    ensures
        untag_date(tag_date(date)) == Ok::<Seq<char>, DecodeError>(date),
{
    let s = tag_date(date);
    let n = date_prefix().len() as int;
    assert(s.subrange(0, n) =~= date_prefix());
    assert(s.subrange(n, s.len() as int) =~= date);
}

/// The wire tag of a request type.
pub open spec fn request_type_tag(t: RequestType) -> Seq<char> {
    match t {
        RequestType::Success => "success"@,
    }
}

/// The request type that a wire tag names; any other tag is refused.
pub open spec fn request_type_of(s: Seq<char>) -> Result<RequestType, DecodeError> {
    if s == "success"@ {
        Ok(RequestType::Success)
    } else {
        Err(DecodeError::TypeMismatch)
    }
}

impl RequestType {
    /// The wire tag of this request type.
    pub fn tag(&self) -> (r: String)
        ensures
            r@ == request_type_tag(*self),
    {
        match self {
            RequestType::Success => String::from_str("success"),
        }
    }

    /// The request type named by a wire tag.
    pub fn from_tag(s: &str) -> (r: Result<RequestType, DecodeError>)
        ensures
            r == request_type_of(s@),
    {
        if String::from_str(s) == String::from_str("success") {
            Ok(RequestType::Success)
        } else {
            Err(DecodeError::TypeMismatch)
        }
    }
}

/// Every request type is read back from its own tag.
pub proof fn lemma_request_type_round_trip(t: RequestType)
    ensures
        request_type_of(request_type_tag(t)) == Ok::<RequestType, DecodeError>(t),
{
}

} // verus!
