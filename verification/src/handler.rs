//! The request pipeline: authentication gates the request, then the query
//! outcome is decoded, filtered, flattened and wrapped into the response
//! envelope. The database round trip itself stands between the two steps
//! and is performed by the surrounding HTTP layer.

use vstd::prelude::*;

use crate::auth::{authenticate, expected_header};
use crate::decode::{decode_rows, decoded_row, row_ok, RawRow, RawRowView};
use crate::engine::{project, project_spec, OutMap};
use crate::error::AppError;
use crate::request::{filter_label_key, filter_label_value, string_param, ReqParams};

verus! {

/// The `output` field of the plugin response envelope.
#[derive(Debug, Clone, PartialEq, Eq)]
pub struct Output {
    pub parameters: Vec<OutMap>,
}

/// The plugin response envelope: the ordered per-tenant maps under
/// `output.parameters`.
#[derive(Debug, Clone, PartialEq, Eq)]
pub struct PluginResponse {
    pub output: Output,
}

/// Wraps the ordered per-tenant maps into the response envelope; nothing is
/// validated, deduplicated or dropped here.
pub fn assemble(maps: Vec<OutMap>) -> (r: PluginResponse)
    ensures
        r.output.parameters == maps,
{
    PluginResponse { output: Output { parameters: maps } }
}

/// What a request is owed before any database work: a rejection, or the
/// query together with the caller's validated filter inputs.
#[derive(Debug, Clone, PartialEq, Eq)]
pub enum Step {
    Reject(AppError),
    RunQuery { filter_key: Option<String>, filter_value: Option<String> },
}

/// Gates a request. An absent or mismatched `Authorization` header is
/// rejected as unauthorized and no query is to be issued; an authorized
/// request proceeds to the query, carrying the two optional filter
/// parameters read from the request's parameter bag.
pub fn plan_request(header: Option<&String>, token: &String, params: &ReqParams) -> (s: Step)
    ensures
        (match header {
            Some(h) => h@ == expected_header(token@),
            None => false,
        }) ==> (s matches Step::RunQuery { filter_key, filter_value }
            && filter_key.deep_view() == string_param(params@, "filterLabelKey"@)
            && filter_value.deep_view() == string_param(params@, "filterLabelValue"@)),
        !(match header {
            Some(h) => h@ == expected_header(token@),
            None => false,
        }) ==> s == Step::Reject(AppError::Unauthorized),
{
    if !authenticate(header, token) {
        return Step::Reject(AppError::Unauthorized);
    }
    Step::RunQuery {
        filter_key: filter_label_key(params),
        filter_value: filter_label_value(params),
    }
}

/// Finishes an authorized request from the query outcome: a database
/// failure or any badly typed row is an internal error for the whole
/// request; otherwise every decoded row runs through the filter and
/// transform engine and the result is wrapped into the envelope.
pub fn execute_rows(
    filter_key: &Option<String>,
    filter_value: &Option<String>,
    outcome: Result<Vec<RawRow>, String>,
) -> (r: Result<PluginResponse, AppError>)
    ensures
        outcome matches Err(m) ==> (r matches Err(e) && e matches AppError::Internal(d) && d@
            == m@),
        outcome matches Ok(rows) ==> {
            if forall|i: int| 0 <= i < rows.deep_view().len() ==> row_ok(
                #[trigger] rows.deep_view()[i],
            ) {
                r matches Ok(resp) && resp.output.parameters.deep_view() == project_spec(
                    rows.deep_view().map_values(|rv: RawRowView| decoded_row(rv)),
                    filter_key.deep_view(),
                    filter_value.deep_view(),
                )
            } else {
                r matches Err(e) && e is Internal
            }
        },
{
    let rows = match outcome {
        Ok(rows) => rows,
        Err(m) => {
            return Err(AppError::Internal(m));
        },
    };
    let records = match decode_rows(&rows) {
        Ok(recs) => recs,
        Err(e) => {
            return Err(e);
        },
    };
    let maps = project(&records, filter_key, filter_value);
    Ok(assemble(maps))
}

} // verus!
