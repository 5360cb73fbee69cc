//! Structured decoding of generated text.
//!
//! Parsing JSON is delegated to the `serde_json` crate behind trusted
//! wrappers. What a given text decodes to is named by uninterpreted spec
//! functions — the decoded value is a function of the characters alone —
//! and everything downstream of a decode is verified against those names.
//! A decode failure is final: the engine converts it to
//! `AgentError::SchemaDecode` and never retries (no silent defaulting).

use vstd::prelude::*;
use crate::agent_trait::{ProjectScope, RouteObject, RouteObjectView};

verus! {

/// What the text decodes to when read as a project-scope record: the three
/// boolean fields, in declaration order.
pub uninterp spec fn scope_decode_of(s: Seq<char>) -> Option<(bool, bool, bool)>;

/// What the text decodes to when read as a JSON array of strings.
pub uninterp spec fn string_list_decode_of(s: Seq<char>) -> Option<Seq<Seq<char>>>;

/// What the text decodes to when read as an endpoint-schema array: per
/// route, its path, method, dynamic flag, and the JSON text of the two
/// open-shaped members.
pub uninterp spec fn routes_decode_of(s: Seq<char>) -> Option<
    Seq<(Seq<char>, Seq<char>, bool, Seq<char>, Seq<char>)>,
>;

/// Relies on serde_json::from_str and serde_json::Value field access:
/// whether the text is a JSON object whose three scope fields are booleans,
/// and which booleans they hold, depends on the characters alone.
#[verifier::external_body]
fn decode_scope_raw(s: &str) -> (r: Option<(bool, bool, bool)>)
    ensures
        r == scope_decode_of(s@),
{
    let v: serde_json::Value = serde_json::from_str(s).ok()?;
    Some((
        v.get("is_crud_required")?.as_bool()?,
        v.get("is_user_login_and_logout")?.as_bool()?,
        v.get("is_external_urls_required")?.as_bool()?,
    ))
}

/// Relies on serde_json::from_str: whether the text is a JSON array of
/// strings, and which strings it holds, depends on the characters alone.
#[verifier::external_body]
fn decode_string_list_raw(s: &str) -> (r: Option<Vec<String>>)
    ensures
        r.deep_view() == string_list_decode_of(s@),
{
    serde_json::from_str(s).ok()
}

/// Relies on serde_json::from_str, serde_json::Value field access and
/// serde_json::to_string (for the open-shaped members, whose printed form
/// is deterministic): the decoded schema depends on the characters alone.
#[verifier::external_body]
fn decode_routes_raw(s: &str) -> (r: Option<Vec<(String, String, bool, String, String)>>)
    ensures
        r.deep_view() == routes_decode_of(s@),
{
    let vs: Vec<serde_json::Value> = serde_json::from_str(s).ok()?;
    let mut out = Vec::new();
    for v in vs.iter() {
        out.push((
            v.get("route")?.as_str()?.to_string(),
            v.get("method")?.as_str()?.to_string(),
            v.get("is_route_dynamic")?.as_bool()?,
            serde_json::to_string(v.get("request_body")?).ok()?,
            serde_json::to_string(v.get("response")?).ok()?,
        ));
    }
    Some(out)
}

/// What the text decodes to when read as a site-page array: per page, its
/// name and the JSON text of its suggested content sections.
pub uninterp spec fn pages_decode_of(s: Seq<char>) -> Option<Seq<(Seq<char>, Seq<char>)>>;

/// What the text decodes to when read as a page-to-route-assignment
/// object: per page name (in sorted key order), its assigned routes as
/// (api_route, method, route_type) triples.
pub uninterp spec fn page_routes_decode_of(s: Seq<char>) -> Option<
    Seq<(Seq<char>, Seq<(Seq<char>, Seq<char>, Seq<char>)>)>,
>;

/// Relies on serde_json::from_str, serde_json::Value field access and
/// serde_json::to_string (for the open-shaped content sections): the
/// decoded page list depends on the characters alone.
#[verifier::external_body]
fn decode_pages_raw(s: &str) -> (r: Option<Vec<(String, String)>>)
    ensures
        r.deep_view() == pages_decode_of(s@),
{
    let vs: Vec<serde_json::Value> = serde_json::from_str(s).ok()?;
    let mut out = Vec::new();
    for v in vs.iter() {
        out.push((
            v.get("page_name")?.as_str()?.to_string(),
            serde_json::to_string(v.get("suggested_content_sections")?).ok()?,
        ));
    }
    Some(out)
}

/// Relies on serde_json::from_str into standard maps and serde_json::Value
/// field access: the decoded assignment table, in sorted key order,
/// depends on the characters alone.
#[verifier::external_body]
fn decode_page_routes_raw(s: &str) -> (r: Option<Vec<(String, Vec<(String, String, String)>)>>)
    ensures
        r.deep_view() == page_routes_decode_of(s@),
{
    let m: std::collections::BTreeMap<String, Vec<serde_json::Value>> = serde_json::from_str(s).ok()?;
    let mut out = Vec::new();
    for (page, items) in m {
        let mut rs = Vec::new();
        for v in items.iter() {
            let route = v.get("api_route")?.as_str()?.to_string();
            let method = v.get("method")?.as_str()?.to_string();
            rs.push((route, method, v.get("route_type")?.as_str()?.to_string()));
        }
        out.push((page, rs));
    }
    Some(out)
}

/// Decode a site-page array, failing closed on any shape mismatch.
pub fn parse_site_pages(s: &str) -> (r: Option<Vec<(String, String)>>)
    ensures
        r.deep_view() == pages_decode_of(s@),
{
    decode_pages_raw(s)
}

/// Decode a page-to-route-assignment table, failing closed on any shape
/// mismatch.
pub fn parse_page_routes(s: &str) -> (r: Option<Vec<(String, Vec<(String, String, String)>)>>)
    ensures
        r.deep_view() == page_routes_decode_of(s@),
{
    decode_page_routes_raw(s)
}

/// The schema record built from one decoded endpoint tuple.
pub open spec fn route_view_of(t: (Seq<char>, Seq<char>, bool, Seq<char>, Seq<char>)) -> RouteObjectView {
    RouteObjectView {
        route: t.0,
        method: t.1,
        is_route_dynamic: t.2,
        request_body: t.3,
        response: t.4,
    }
}

/// Decode a project-scope record, failing closed on any shape mismatch.
pub fn parse_project_scope(s: &str) -> (r: Option<ProjectScope>)
    ensures
        match scope_decode_of(s@) {
            Some(t) => (r == Some(
                ProjectScope {
                    is_crud_required: t.0,
                    is_user_login_and_logout: t.1,
                    is_external_urls_required: t.2,
                },
            )),
            None => r is None,
        },
{
    match decode_scope_raw(s) {
        Some((crud, login, external)) => Some(
            ProjectScope {
                is_crud_required: crud,
                is_user_login_and_logout: login,
                is_external_urls_required: external,
            },
        ),
        None => None,
    }
}

/// Decode a JSON array of strings (candidate URLs, brand colours), failing
/// closed on any shape mismatch.
pub fn parse_string_list(s: &str) -> (r: Option<Vec<String>>)
    ensures
        r is Some <==> string_list_decode_of(s@) is Some,
        r is Some ==> r.unwrap().deep_view() == string_list_decode_of(s@).unwrap(),
{
    decode_string_list_raw(s)
}

/// The endpoint schema the text decodes to, as schema records.
pub open spec fn routes_views_of(s: Seq<char>) -> Option<Seq<RouteObjectView>> {
    match routes_decode_of(s) {
        Some(ts) => Some(
            ts.map_values(|t: (Seq<char>, Seq<char>, bool, Seq<char>, Seq<char>)| route_view_of(t)),
        ),
        None => None,
    }
}

/// Decode a full endpoint schema, failing closed on any shape mismatch.
pub fn parse_route_objects(s: &str) -> (r: Option<Vec<RouteObject>>)
    ensures
        r is Some <==> routes_views_of(s@) is Some,
        r is Some ==> r.unwrap().deep_view() == routes_views_of(s@).unwrap(),
{
    let raw = match decode_routes_raw(s) {
        Some(ts) => ts,
        None => {
            return None;
        },
    };
    let ghost target = routes_views_of(s@).unwrap();
    proof {
        assert(raw.deep_view().len() == target.len());
    }
    let mut out: Vec<RouteObject> = Vec::new();
    let mut i: usize = 0;
    while i < raw.len()
        invariant
            i <= raw.len(),
            raw.deep_view() == routes_decode_of(s@).unwrap(),
            routes_views_of(s@) is Some,
            target == routes_views_of(s@).unwrap(),
            target.len() == raw.len(),
            out.deep_view() == target.take(i as int),
        decreases raw.len() - i,
    {
        let item = RouteObject {
            route: raw[i].0.clone(),
            method: raw[i].1.clone(),
            is_route_dynamic: raw[i].2,
            request_body: raw[i].3.clone(),
            response: raw[i].4.clone(),
        };
        proof {
            assert(raw.deep_view()[i as int] == raw@[i as int].deep_view());
            assert(item.deep_view() == target[i as int]);
        }
        let ghost pre = out.deep_view();
        proof {
            assert(pre.len() == i as int);
        }
        out.push(item);
        proof {
            assert(out.deep_view().len() == i + 1);
            assert forall|j: int| 0 <= j < i + 1 implies out.deep_view()[j] == target.take(
                i + 1,
            )[j] by {
                if j < i {
                    assert(out.deep_view()[j] == pre[j]);
                    assert(pre[j] == target.take(i as int)[j]);
                } else {
                    assert(out.deep_view()[j] == item.deep_view());
                }
            }
            assert(out.deep_view() =~= target.take(i + 1));
        }
        i += 1;
    }
    proof {
        assert(out.deep_view() =~= target);
    }
    Some(out)
}

} // verus!
