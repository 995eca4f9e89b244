//! The metadata that source scripts hand over, and the check on its URI.
use vstd::prelude::*;

verus! {

/// Metadata of one media item as a source script reports it.  `uri` holds the text of a
/// URI reference.
#[derive(Debug, Clone)]
pub struct Metadata {
    pub uri: String,
    pub extra_source: String,
    pub source: String,
    pub mime: String,
    pub tags: Vec<String>,
    pub extra: Option<Extra>,
}

/// What is known of an item beyond its kind.
#[derive(Debug, Clone, Copy, PartialEq, Eq, Structural)]
pub enum Extra {
    Image { width: u64, height: u64 },
}

/// Why a source script's URI is refused.
#[derive(Debug, Clone, Copy, PartialEq, Eq, Structural)]
pub enum UriError {
    /// The text is not a URI reference at all.
    Malformed,
    /// The text is a relative reference: it has no scheme ("uri is invalid").
    NotAbsolute,
}

/// Whether `s` is a URI reference, as `fluent_uri::UriRef::parse` decides it.
pub uninterp spec fn uri_ref_parses(s: Seq<char>) -> bool;

/// `c` may stand in a scheme: an ASCII letter or digit, `+`, `-` or `.`.
pub open spec fn is_scheme_char(c: char) -> bool {
    ('a' <= c && c <= 'z') || ('A' <= c && c <= 'Z') || ('0' <= c && c <= '9') || c == '+' || c
        == '-' || c == '.'
}

/// `s` begins with a scheme: an ASCII letter, then scheme characters, up to a `:`.
pub open spec fn starts_with_scheme(s: Seq<char>) -> bool {
    exists|k: int|
        #![trigger s[k]]
        0 < k < s.len() && s[k] == ':' && (('a' <= s[0] && s[0] <= 'z') || ('A' <= s[0] && s[0]
            <= 'Z')) && forall|j: int| 0 <= j < k ==> is_scheme_char(#[trigger] s[j])
}

/// Parses `s` as a URI reference and tells whether it has a scheme.
///
/// Calls `fluent_uri::UriRef::parse` on the text; where that succeeds, calls
/// `has_scheme` on the parsed reference.  Whether the text parses is only
/// named (`uri_ref_parses`); of a text that parses, the contract claims that it
/// has a scheme exactly when it begins with one: the parser reads the longest
/// run of scheme characters and takes it as the scheme where a `:` follows and
/// it starts with a letter (and refuses the text where a `:` follows otherwise).
#[verifier::external_body]
fn uri_scheme_present(s: &str) -> (r: Option<bool>)
    ensures
        match r {
            None => !uri_ref_parses(s@),
            Some(b) => uri_ref_parses(s@) && b == starts_with_scheme(s@),
        },
{
    match fluent_uri::UriRef::parse(s) {
        Ok(uri) => Some(uri.has_scheme()),
        Err(_) => None,
    }
}

/// The verdict on a URI reference from the outcome of its parse: refused where it did not
/// parse or has no scheme.
pub open spec fn uri_verdict(parsed: Option<bool>) -> Result<(), UriError> {
    match parsed {
        None => Err(UriError::Malformed),
        Some(false) => Err(UriError::NotAbsolute),
        Some(true) => Ok(()),
    }
}

/// The verdict on a URI from the outcome of its parse.
pub fn verdict_from_parse(parsed: Option<bool>) -> (r: Result<(), UriError>)
    ensures
        r == uri_verdict(parsed),
{
    match parsed {
        None => Err(UriError::Malformed),
        Some(false) => Err(UriError::NotAbsolute),
        Some(true) => Ok(()),
    }
}

/// The verdict on the text `s` of a URI.
pub open spec fn uri_accepted(s: Seq<char>) -> Result<(), UriError> {
    if !uri_ref_parses(s) {
        Err(UriError::Malformed)
    } else if !starts_with_scheme(s) {
        Err(UriError::NotAbsolute)
    } else {
        Ok(())
    }
}

/// Accepts a URI that a source script hands over only where it parses and has a scheme.
pub fn check_uri(uri: &str) -> (r: Result<(), UriError>)
    ensures
        r == uri_accepted(uri@),
{
    verdict_from_parse(uri_scheme_present(uri))
}

/// Takes metadata from the source script `source_name`: the source is recorded in it, and
/// its URI must be absolute.
pub fn accept_source_metadata(metadata: Metadata, source_name: String) -> (r: Result<
    Metadata,
    UriError,
>)
    ensures
        match uri_accepted(metadata.uri@) {
            Err(e) => r == Err::<Metadata, UriError>(e),
            Ok(_) => r matches Ok(m) && m == (Metadata { source: source_name, ..metadata }),
        },
{
    let mut metadata = metadata;
    metadata.source = source_name;
    match check_uri(metadata.uri.as_str()) {
        Ok(()) => Ok(metadata),
        Err(e) => Err(e),
    }
}

} // verus!
