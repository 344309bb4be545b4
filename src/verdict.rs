use vstd::prelude::*;
use vstd::string::*;

verus! {

/// A field that an ingest query must carry exactly once.
#[derive(Clone, Copy, Debug, PartialEq, Eq, Structural)]
pub enum QueryField {
    Name,
    Key,
}

/// Why a stream was refused.
#[derive(Clone, Debug)]
pub enum Denial {
    /// The payload of the call did not decode; holds the decoder's message.
    MalformedRequest(String),
    /// The subject URL (first) does not parse; holds the parser's message
    /// (second).
    InvalidUrl(String, String),
    /// The subject URL has no query string.
    NoQuery,
    /// The query string does not decode; holds the decoder's message.
    MalformedQuery(String),
    MissingField(QueryField),
    DuplicateField(QueryField),
    /// No secret is known for the named streamer.
    UnknownStreamer(String),
    /// The presented key differs from the named streamer's secret.
    InvalidKey(String),
    /// The path has no second segment; holds the URL's text.
    MissingRoomSegment(String),
    /// The named streamer has no entry among the room grants.
    NoRoomGrants(String),
    /// The streamer (first) may not publish into the room (second).
    RoomNotGranted(String, String),
}

pub ghost enum DenialModel {
    MalformedRequest(Seq<char>),
    InvalidUrl(Seq<char>, Seq<char>),
    NoQuery,
    MalformedQuery(Seq<char>),
    MissingField(QueryField),
    DuplicateField(QueryField),
    UnknownStreamer(Seq<char>),
    InvalidKey(Seq<char>),
    MissingRoomSegment(Seq<char>),
    NoRoomGrants(Seq<char>),
    RoomNotGranted(Seq<char>, Seq<char>),
}

impl View for Denial {
    type V = DenialModel;

    open spec fn view(&self) -> DenialModel {
        match self {
            Denial::MalformedRequest(m) => DenialModel::MalformedRequest(m@),
            Denial::InvalidUrl(u, m) => DenialModel::InvalidUrl(u@, m@),
            Denial::NoQuery => DenialModel::NoQuery,
            Denial::MalformedQuery(m) => DenialModel::MalformedQuery(m@),
            Denial::MissingField(f) => DenialModel::MissingField(*f),
            Denial::DuplicateField(f) => DenialModel::DuplicateField(*f),
            Denial::UnknownStreamer(n) => DenialModel::UnknownStreamer(n@),
            Denial::InvalidKey(n) => DenialModel::InvalidKey(n@),
            Denial::MissingRoomSegment(u) => DenialModel::MissingRoomSegment(u@),
            Denial::NoRoomGrants(n) => DenialModel::NoRoomGrants(n@),
            Denial::RoomNotGranted(n, r) => DenialModel::RoomNotGranted(n@, r@),
        }
    }
}

pub open spec fn field_label(f: QueryField) -> Seq<char> {
    match f {
        QueryField::Name => "`name`"@,
        QueryField::Key => "`key`"@,
    }
}

/// The human-readable reason given for a denial.
pub open spec fn reason_text(d: DenialModel) -> Seq<char> {
    match d {
        DenialModel::MalformedRequest(m) => "malformed request: "@ + m,
        DenialModel::InvalidUrl(u, m) => "invalid url '"@ + u + "': "@ + m,
        DenialModel::NoQuery => "no query parameters present"@,
        DenialModel::MalformedQuery(m) => m,
        DenialModel::MissingField(f) => "missing field "@ + field_label(f),
        DenialModel::DuplicateField(f) => "duplicate field "@ + field_label(f),
        DenialModel::UnknownStreamer(n) => "unknown streamer: "@ + n,
        DenialModel::InvalidKey(n) => "invalid key for streamer "@ + n,
        DenialModel::MissingRoomSegment(u) => "url '"@ + u + "' is lacking a second segment"@,
        DenialModel::NoRoomGrants(n) => "streamer '"@ + n + "' does not have access to any rooms"@,
        DenialModel::RoomNotGranted(n, r) => "streamer "@ + n + " does not have access to room "@
            + r,
    }
}

fn label_string(f: QueryField) -> (r: String)
    ensures
        r@ == field_label(f),
{
    match f {
        QueryField::Name => String::from_str("`name`"),
        QueryField::Key => String::from_str("`key`"),
    }
}

impl Denial {
    /// The reason reported to the media server.
    pub fn reason(&self) -> (r: String)
        ensures
            r@ == reason_text(self@),
    {
        match self {
            Denial::MalformedRequest(m) => String::from_str("malformed request: ").concat(
                m.as_str(),
            ),
            Denial::InvalidUrl(u, m) => String::from_str("invalid url '").concat(u.as_str()).concat(
                "': ",
            ).concat(m.as_str()),
            Denial::NoQuery => String::from_str("no query parameters present"),
            Denial::MalformedQuery(m) => m.clone(),
            Denial::MissingField(f) => String::from_str("missing field ").concat(
                label_string(*f).as_str(),
            ),
            Denial::DuplicateField(f) => String::from_str("duplicate field ").concat(
                label_string(*f).as_str(),
            ),
            Denial::UnknownStreamer(n) => String::from_str("unknown streamer: ").concat(n.as_str()),
            Denial::InvalidKey(n) => String::from_str("invalid key for streamer ").concat(
                n.as_str(),
            ),
            Denial::MissingRoomSegment(u) => String::from_str("url '").concat(u.as_str()).concat(
                "' is lacking a second segment",
            ),
            Denial::NoRoomGrants(n) => String::from_str("streamer '").concat(n.as_str()).concat(
                "' does not have access to any rooms",
            ),
            Denial::RoomNotGranted(n, r) => String::from_str("streamer ").concat(
                n.as_str(),
            ).concat(" does not have access to room ").concat(r.as_str()),
        }
    }
}

/// The answer to a closing stream: an empty object on the wire.
#[derive(Clone, Copy, Debug, PartialEq, Eq, Structural)]
pub struct OvenClosingResponse {}

/// The answer to an opening stream.
#[derive(Clone, Debug)]
pub struct OvenOpeningResponse {
    pub allowed: bool,
    pub new_url: Option<String>,
    pub lifetime: Option<u64>,
    pub reason: Option<String>,
}

/// The answer to an admission call; its shape depends on the lifecycle step.
#[derive(Clone, Debug)]
pub enum OvenResponse {
    Closing(OvenClosingResponse),
    Opening(OvenOpeningResponse),
}

pub ghost enum ResponseModel {
    Closing,
    Opening {
        allowed: bool,
        new_url: Option<Seq<char>>,
        lifetime: Option<u64>,
        reason: Option<Seq<char>>,
    },
}

pub open spec fn opening_model(o: OvenOpeningResponse) -> ResponseModel {
    ResponseModel::Opening {
        allowed: o.allowed,
        new_url: match o.new_url {
            Some(u) => Some(u@),
            None => None,
        },
        lifetime: o.lifetime,
        reason: match o.reason {
            Some(s) => Some(s@),
            None => None,
        },
    }
}

impl View for OvenResponse {
    type V = ResponseModel;

    open spec fn view(&self) -> ResponseModel {
        match self {
            OvenResponse::Closing(_) => ResponseModel::Closing,
            OvenResponse::Opening(o) => opening_model(*o),
        }
    }
}

impl OvenOpeningResponse {
    /// An unconditional allow: no reason, no new URL, no lifetime.
    pub fn allow() -> (r: OvenOpeningResponse)
        ensures
            opening_model(r) == (ResponseModel::Opening {
                allowed: true,
                new_url: None,
                lifetime: None,
                reason: None,
            }),
    {
        OvenOpeningResponse { allowed: true, new_url: None, lifetime: None, reason: None }
    }

    /// A refusal that carries the reason of `d`.
    pub fn deny(d: &Denial) -> (r: OvenOpeningResponse)
        ensures
            opening_model(r) == (ResponseModel::Opening {
                allowed: false,
                new_url: None,
                lifetime: None,
                reason: Some(reason_text(d@)),
            }),
    {
        OvenOpeningResponse { allowed: false, new_url: None, lifetime: None, reason: Some(d.reason()) }
    }
}

} // verus!
