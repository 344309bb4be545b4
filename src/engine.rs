use vstd::prelude::*;
use crate::query::{decode_form, field_spec, form_pairs_of, pairs_view, query_field};
use crate::request::{
    OvenAdmission, OvenDirection, OvenRequest, OvenStatus, SubjectUrl, parse_subject_url,
    segments_view, url_error_of, url_parses, url_query_of, url_segments_of,
};
use crate::table::{AuthorizationTable, TableModel, rooms_set};
use crate::verdict::{
    Denial, DenialModel, OvenClosingResponse, OvenOpeningResponse, OvenResponse, QueryField,
    ResponseModel, opening_model, reason_text,
};

verus! {

/// The checks on a publish attempt once its query has decoded into `pairs`,
/// in order: the credentials first, then the target room.
pub open spec fn ingest_verdict(
    t: TableModel,
    pairs: Seq<(Seq<char>, Seq<char>)>,
    segments: Option<Seq<Seq<char>>>,
    url: Seq<char>,
) -> Result<(), DenialModel> {
    match field_spec(pairs, QueryField::Name) {
        Err(d) => Err(d),
        Ok(name) => match field_spec(pairs, QueryField::Key) {
            Err(d) => Err(d),
            Ok(key) => if !t.secrets.contains_key(name) {
                Err(DenialModel::UnknownStreamer(name))
            } else if t.secrets[name] != key {
                Err(DenialModel::InvalidKey(name))
            } else if segments is None || segments->Some_0.len() < 2 {
                Err(DenialModel::MissingRoomSegment(url))
            } else if !t.grants.contains_key(name) {
                Err(DenialModel::NoRoomGrants(name))
            } else if !t.grants[name].contains(segments->Some_0[1]) {
                Err(DenialModel::RoomNotGranted(name, segments->Some_0[1]))
            } else {
                Ok(())
            },
        },
    }
}

/// The verdict on a stream that is opening: its URL must parse; playback is
/// then allowed, and a publish attempt must pass the ingest checks.
pub open spec fn opening_verdict(t: TableModel, req: OvenRequest) -> Result<(), DenialModel> {
    if !url_parses(req.url@) {
        Err(DenialModel::InvalidUrl(req.url@, url_error_of(req.url@)))
    } else {
        match req.direction {
            OvenDirection::Outgoing => Ok(()),
            OvenDirection::Incoming => match url_query_of(req.url@) {
                None => Err(DenialModel::NoQuery),
                Some(q) => match form_pairs_of(q) {
                    Err(m) => Err(DenialModel::MalformedQuery(m)),
                    Ok(pairs) => ingest_verdict(t, pairs, url_segments_of(req.url@), req.url@),
                },
            },
        }
    }
}

/// The answer to an admission request.
pub open spec fn response_of(t: TableModel, req: OvenRequest) -> ResponseModel {
    match req.status {
        OvenStatus::Closing => ResponseModel::Closing,
        OvenStatus::Opening => match opening_verdict(t, req) {
            Ok(()) => ResponseModel::Opening {
                allowed: true,
                new_url: None,
                lifetime: None,
                reason: None,
            },
            Err(d) => ResponseModel::Opening {
                allowed: false,
                new_url: None,
                lifetime: None,
                reason: Some(reason_text(d)),
            },
        },
    }
}

pub open spec fn unit_result_view(r: Result<(), Denial>) -> Result<(), DenialModel> {
    match r {
        Ok(()) => Ok(()),
        Err(d) => Err(d@),
    }
}

fn contains_room(rooms: &Vec<String>, room: &String) -> (r: bool)
    ensures
        r == rooms_set(rooms@).contains(room@),
{
    let mut i: usize = 0;
    while i < rooms.len()
        invariant
            i <= rooms.len(),
            forall|j: int| 0 <= j < i ==> rooms@[j]@ != room@,
        decreases rooms.len() - i,
    {
        if rooms[i] == *room {
            assert(rooms@[i as int]@ == room@);
            return true;
        }
        i = i + 1;
    }
    false
}

/// Checks a publish attempt whose query decoded into `pairs`, against the
/// table: the streamer's key, then its grant for the room that is the second
/// segment of `url`'s path. `text` is the URL as sent, for the reasons.
pub fn check_ingest(
    table: &AuthorizationTable,
    pairs: &Vec<(String, String)>,
    url: &SubjectUrl,
    text: &String,
) -> (r: Result<(), Denial>)
    ensures
        unit_result_view(r) == ingest_verdict(
            table@,
            pairs_view(pairs@),
            segments_view(url.segments),
            text@,
        ),
{
    let name = match query_field(pairs, QueryField::Name) {
        Ok(n) => n,
        Err(d) => return Err(d),
    };
    let key = match query_field(pairs, QueryField::Key) {
        Ok(k) => k,
        Err(d) => return Err(d),
    };
    let expected = match table.lookup_secret(&name) {
        Some(s) => s,
        None => return Err(Denial::UnknownStreamer(name)),
    };
    if *expected != key {
        return Err(Denial::InvalidKey(name));
    }
    let room = match &url.segments {
        Some(segs) => {
            if segs.len() < 2 {
                return Err(Denial::MissingRoomSegment(text.clone()));
            }
            &segs[1]
        },
        None => return Err(Denial::MissingRoomSegment(text.clone())),
    };
    let rooms = match table.lookup_allowed_rooms(&name) {
        Some(rs) => rs,
        None => return Err(Denial::NoRoomGrants(name)),
    };
    if !contains_room(rooms, room) {
        return Err(Denial::RoomNotGranted(name, room.clone()));
    }
    Ok(())
}

/// Decides a stream that is opening: its URL must parse; playback is then
/// allowed; a publish attempt must present a known streamer's key and target a room granted to
/// that streamer.
pub fn handle_opening_admission(state: &AuthorizationTable, payload: &OvenAdmission) -> (r: Result<
    OvenOpeningResponse,
    Denial,
>)
    ensures
        match r {
            Ok(o) => opening_verdict(state@, payload.request) is Ok && opening_model(o)
                == (ResponseModel::Opening {
                allowed: true,
                new_url: None,
                lifetime: None,
                reason: None,
            }),
            Err(d) => opening_verdict(state@, payload.request) == Err::<(), _>(d@),
        },
{
    let req = &payload.request;
    let url = match parse_subject_url(req.url.as_str()) {
        Ok(u) => u,
        Err(m) => return Err(Denial::InvalidUrl(req.url.clone(), m)),
    };
    match req.direction {
        OvenDirection::Outgoing => {},
        OvenDirection::Incoming => {
            let query = match &url.query {
                Some(q) => q,
                None => return Err(Denial::NoQuery),
            };
            let pairs = match decode_form(query.as_str()) {
                Ok(p) => p,
                Err(m) => return Err(Denial::MalformedQuery(m)),
            };
            match check_ingest(state, &pairs, &url, &req.url) {
                Ok(()) => {},
                Err(d) => return Err(d),
            }
        },
    }
    Ok(OvenOpeningResponse::allow())
}

/// Answers an admission call: closing streams are always acknowledged;
/// opening streams get an allow, or a refusal with its reason.
pub fn admission(state: &AuthorizationTable, payload: &OvenAdmission) -> (r: OvenResponse)
    ensures
        r@ == response_of(state@, payload.request),
        payload.request.status == OvenStatus::Closing ==> r@ == ResponseModel::Closing,
        payload.request.status == OvenStatus::Opening && payload.request.direction
            == OvenDirection::Outgoing && url_parses(payload.request.url@) ==> r@ matches ResponseModel::Opening {
            allowed: true,
            ..
        },
        payload.request.status == OvenStatus::Opening && !url_parses(payload.request.url@) ==> r@ matches ResponseModel::Opening {
            allowed: false,
            ..
        },
{
    match payload.request.status {
        OvenStatus::Closing => OvenResponse::Closing(OvenClosingResponse {}),
        OvenStatus::Opening => match handle_opening_admission(state, payload) {
            Ok(o) => OvenResponse::Opening(o),
            Err(d) => OvenResponse::Opening(OvenOpeningResponse::deny(&d)),
        },
    }
}

/// Answers an admission call whose payload did not decode, with the
/// decoder's `message`. `status` is the lifecycle step, where it could still
/// be read: a closing stream is acknowledged as usual; anything else is
/// refused.
pub fn malformed_admission(status: Option<OvenStatus>, message: String) -> (r: OvenResponse)
    ensures
        status == Some(OvenStatus::Closing) ==> r@ == ResponseModel::Closing,
        status != Some(OvenStatus::Closing) ==> r@ == (ResponseModel::Opening {
            allowed: false,
            new_url: None,
            lifetime: None,
            reason: Some(reason_text(DenialModel::MalformedRequest(message@))),
        }),
{
    match status {
        Some(OvenStatus::Closing) => OvenResponse::Closing(OvenClosingResponse {}),
        _ => OvenResponse::Opening(OvenOpeningResponse::deny(&Denial::MalformedRequest(message))),
    }
}

} // verus!
