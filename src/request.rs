use vstd::prelude::*;

verus! {

/// The peer that asked the media server for a stream.
#[derive(Clone, Debug)]
pub struct OvenClient {
    pub address: String,
    pub port: u16,
    pub user_agent: String,
}

/// Whether a stream is published into the server or played out of it.
#[derive(Clone, Copy, Debug, PartialEq, Eq, Structural)]
pub enum OvenDirection {
    Incoming,
    Outgoing,
}

/// Transport of the stream; informational only.
#[derive(Clone, Copy, Debug, PartialEq, Eq, Structural)]
pub enum OvenProtocol {
    WebRTC,
    RTMP,
    SRT,
    LLHLS,
    Thumbnail,
}

/// Lifecycle step that the server asks about.
#[derive(Clone, Copy, Debug, PartialEq, Eq, Structural)]
pub enum OvenStatus {
    Closing,
    Opening,
}

/// An instant with the UTC offset it was written in.
#[derive(Clone, Copy, Debug, PartialEq, Eq, Structural)]
pub struct Timestamp {
    /// Seconds since the Unix epoch, UTC.
    pub unix_seconds: i64,
    pub nanosecond: u32,
    /// Offset from UTC of the written form, in seconds.
    pub offset_seconds: i32,
}

/// One admission question: what is asked for, and about which URL.
#[derive(Clone, Debug)]
pub struct OvenRequest {
    pub direction: OvenDirection,
    pub protocol: OvenProtocol,
    pub status: OvenStatus,
    /// The subject URL as the server sent it.
    pub url: String,
    pub new_url: Option<String>,
    pub time: Timestamp,
}

/// The whole payload of an admission call.
#[derive(Clone, Debug)]
pub struct OvenAdmission {
    pub client: OvenClient,
    pub request: OvenRequest,
}

/// The parts of a parsed URL that admission reads.
#[derive(Clone, Debug)]
pub struct SubjectUrl {
    /// The query string, without the `?`, if the URL has one.
    pub query: Option<String>,
    /// The path split on `/`, if the URL has a hierarchical path.
    pub segments: Option<Vec<String>>,
}

pub open spec fn opt_str_view(o: Option<String>) -> Option<Seq<char>> {
    match o {
        Some(s) => Some(s@),
        None => None,
    }
}

pub open spec fn segments_view(o: Option<Vec<String>>) -> Option<Seq<Seq<char>>> {
    match o {
        Some(v) => Some(v@.map_values(|s: String| s@)),
        None => None,
    }
}

/// Whether `url::Url::parse` accepts the text.
pub uninterp spec fn url_parses(text: Seq<char>) -> bool;

/// The `Display` text of the error that `url::Url::parse` gives for the text.
pub uninterp spec fn url_error_of(text: Seq<char>) -> Seq<char>;

/// What `url::Url::query` gives for the URL parsed from the text.
pub uninterp spec fn url_query_of(text: Seq<char>) -> Option<Seq<char>>;

/// What `url::Url::path_segments` yields for the URL parsed from the text.
pub uninterp spec fn url_segments_of(text: Seq<char>) -> Option<Seq<Seq<char>>>;

/// Relies on `url::Url::parse` to accept or reject the text (with the
/// `Display` of its `url::ParseError` on rejection), and on `url::Url::query`
/// and `url::Url::path_segments` for the parts; each is a function of the
/// text alone.
#[verifier::external_body]
pub(crate) fn parse_subject_url(text: &str) -> (r: Result<SubjectUrl, String>)
    ensures
        r is Ok <==> url_parses(text@),
        r matches Ok(u) ==> opt_str_view(u.query) == url_query_of(text@) && segments_view(
            u.segments,
        ) == url_segments_of(text@),
        r matches Err(m) ==> m@ == url_error_of(text@),
{
    match url::Url::parse(text) {
        Ok(u) => Ok(
            SubjectUrl {
                query: u.query().map(String::from),
                segments: u.path_segments().map(|s| s.map(String::from).collect()),
            },
        ),
        Err(e) => Err(e.to_string()),
    }
}

} // verus!
