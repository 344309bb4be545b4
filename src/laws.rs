use vstd::prelude::*;
use crate::engine::response_of;
use crate::query::{field_key, field_values, form_pairs_of};
use crate::request::{OvenDirection, OvenRequest, OvenStatus, url_parses, url_query_of, url_segments_of};
use crate::table::TableModel;
use crate::verdict::{OvenResponse, QueryField, ResponseModel};

verus! {

/// Whether the response lets the stream open.
pub open spec fn is_allowed(r: ResponseModel) -> bool {
    r matches ResponseModel::Opening { allowed: true, .. }
}

/// A publish to `url` is authorized: the URL parses and has a query that
/// decodes to exactly one `name` and one `key`; the key is the streamer's
/// secret; and the second path segment is among the streamer's rooms.
pub open spec fn publish_authorized(t: TableModel, url: Seq<char>) -> bool {
    url_parses(url) && url_query_of(url) is Some && form_pairs_of(url_query_of(url)->Some_0) is Ok
        && {
        let pairs = form_pairs_of(url_query_of(url)->Some_0)->Ok_0;
        let names = field_values(pairs, field_key(QueryField::Name));
        let keys = field_values(pairs, field_key(QueryField::Key));
        let segs = url_segments_of(url);
        &&& names.len() == 1
        &&& keys.len() == 1
        &&& t.secrets.contains_key(names[0])
        &&& t.secrets[names[0]] == keys[0]
        &&& segs is Some
        &&& segs->Some_0.len() >= 2
        &&& t.grants.contains_key(names[0])
        &&& t.grants[names[0]].contains(segs->Some_0[1])
    }
}

/// A closing stream is acknowledged whatever else the request holds, even
/// a URL that does not parse.
pub proof fn lemma_closing_always_acknowledged(t: TableModel, req: OvenRequest)
    requires
        req.status == OvenStatus::Closing,
    ensures
        response_of(t, req) == ResponseModel::Closing,
{
}

/// An opening playback stream whose URL parses is allowed whatever the
/// table holds.
pub proof fn lemma_playback_always_allowed(t: TableModel, req: OvenRequest)
    requires
        req.status == OvenStatus::Opening,
        req.direction == OvenDirection::Outgoing,
        url_parses(req.url@),
    ensures
        is_allowed(response_of(t, req)),
{
}

/// An opening publish attempt is allowed exactly when it is authorized.
pub proof fn lemma_publish_allowed_iff_authorized(t: TableModel, req: OvenRequest)
    requires
        req.status == OvenStatus::Opening,
        req.direction == OvenDirection::Incoming,
    ensures
        is_allowed(response_of(t, req)) <==> publish_authorized(t, req.url@),
{
}

/// Removing a streamer's secret never turns a refusal into an allow: what
/// is allowed after the removal was allowed before it.
pub proof fn lemma_revocation_only_denies(t: TableModel, req: OvenRequest, name: Seq<char>)
    ensures
        is_allowed(response_of(TableModel { secrets: t.secrets.remove(name), grants: t.grants }, req))
            ==> is_allowed(response_of(t, req)),
{
    let revoked = TableModel { secrets: t.secrets.remove(name), grants: t.grants };
    if req.status == OvenStatus::Opening && req.direction == OvenDirection::Incoming {
        lemma_publish_allowed_iff_authorized(t, req);
        lemma_publish_allowed_iff_authorized(revoked, req);
    }
}

/// Deciding twice on the same table and request gives the same answer.
pub proof fn lemma_decision_idempotent(
    t: TableModel,
    req: OvenRequest,
    first: OvenResponse,
    second: OvenResponse,
)
    requires
        first@ == response_of(t, req),
        second@ == response_of(t, req),
    ensures
        first@ == second@,
{
}

} // verus!
