//! The request-side parameter bag: an open-ended string-keyed mapping in
//! which only the two label-filter keys are meaningful. Every other key, and
//! a non-string value under a recognized key, is ignored.

use vstd::prelude::*;
use vstd::string::*;

use crate::maps::KvList;

verus! {

/// A request parameter value: a string, or anything else (which the service
/// ignores but must not choke on).
#[derive(Debug, Clone, PartialEq, Eq)]
pub enum ReqValue {
    Text(String),
    Other,
}

pub enum ReqValueView {
    Text(Seq<char>),
    Other,
}

impl View for ReqValue {
    type V = ReqValueView;

    open spec fn view(&self) -> ReqValueView {
        match self {
            ReqValue::Text(s) => ReqValueView::Text(s@),
            ReqValue::Other => ReqValueView::Other,
        }
    }
}

/// The open-ended parameter bag of a plugin request.
pub type ReqParams = KvList<ReqValue>;

pub open spec fn text_of(v: ReqValueView) -> Option<Seq<char>> {
    match v {
        ReqValueView::Text(s) => Some(s),
        ReqValueView::Other => None,
    }
}

/// The optional string value of one request parameter: present exactly when
/// the bag holds the key with a string value.
pub open spec fn string_param(m: Map<Seq<char>, ReqValueView>, k: Seq<char>) -> Option<Seq<char>> {
    if m.dom().contains(k) {
        text_of(m[k])
    } else {
        None
    }
}

/// Reads one parameter as an optional string; a missing key and a
/// non-string value both come back as `None`.
pub fn get_string_param(params: &ReqParams, k: &String) -> (r: Option<String>)
    ensures
        r.deep_view() == string_param(params@, k@),
{
    match params.get(k) {
        Some(v) => match v {
            ReqValue::Text(s) => Some(s.clone()),
            ReqValue::Other => None,
        },
        None => None,
    }
}

/// The caller's optional label-filter key, `filterLabelKey`.
pub fn filter_label_key(params: &ReqParams) -> (r: Option<String>)
    ensures
        r.deep_view() == string_param(params@, "filterLabelKey"@),
{
    get_string_param(params, &String::from_str("filterLabelKey"))
}

/// The caller's optional label-filter value, `filterLabelValue`.
pub fn filter_label_value(params: &ReqParams) -> (r: Option<String>)
    ensures
        r.deep_view() == string_param(params@, "filterLabelValue"@),
{
    get_string_param(params, &String::from_str("filterLabelValue"))
}

} // verus!
