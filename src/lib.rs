//! Admission control for a media-streaming server: decides whether a stream
//! may open or close, against a static table of streamer credentials and
//! room grants.

mod engine;
mod laws;
mod query;
mod request;
mod table;
mod verdict;

pub use query::{field_key, field_spec, field_values, form_pairs_of, pairs_view, query_field};
pub use request::{
    OvenAdmission, OvenClient, OvenDirection, OvenProtocol, OvenRequest, OvenStatus, SubjectUrl,
    Timestamp, opt_str_view, segments_view, url_error_of, url_parses, url_query_of, url_segments_of,
};
pub use table::{AuthorizationTable, TableModel, last_index_of, rooms_set};
pub use verdict::{
    Denial, DenialModel, OvenClosingResponse, OvenOpeningResponse, OvenResponse, QueryField,
    ResponseModel, field_label, opening_model, reason_text,
};
pub use engine::{
    admission, check_ingest, handle_opening_admission, ingest_verdict, malformed_admission,
    opening_verdict, response_of,
    unit_result_view,
};
pub use laws::{
    is_allowed, lemma_closing_always_acknowledged, lemma_decision_idempotent,
    lemma_playback_always_allowed, lemma_publish_allowed_iff_authorized,
    lemma_revocation_only_denies, publish_authorized,
};
