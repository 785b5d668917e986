//! Picking a render: by the exact location of its device, by a query
//! against what discovery found, or the first that discovery found.

use crate::config::NO_DEVICES_DISCOVERED_MSG;
use crate::devices::discovery::{default_search, render_views, SearchPlan};
use crate::devices::render::{Render, RenderView};
use crate::devices::types::{RenderSpec, RenderSpecView};
use crate::error::Error;
use crate::text::{occurs_in, str_contains};
use vstd::prelude::*;
use vstd::string::*;

verus! {

/// What `<http::Uri as FromStr>::from_str` says against a text: nothing
/// where the text is a URI, else what the error displays.
pub uninterp spec fn uri_failure(url: Seq<char>) -> Option<Seq<char>>;

/// Calls `<http::Uri as FromStr>::from_str` and hands back what its error
/// displays, or nothing where the text is a URI.
#[verifier::external_body]
fn uri_parse_failure(url: &str) -> (r: Option<String>)
    ensures
        match r {
            Some(m) => uri_failure(url@) == Some(m@),
            None => uri_failure(url@).is_none(),
        },
{
    match url.parse::<http::Uri>() {
        Ok(_) => None,
        Err(e) => Some(e.to_string()),
    }
}

/// Checks that the location of a device is a URI.
pub fn check_device_url(url: &str) -> (r: Result<(), Error>)
    ensures
        match r {
            Ok(_) => uri_failure(url@).is_none(),
            Err(e) => uri_failure(url@).is_some() && (e matches Error::DeviceUrlParseError {
                url: u,
                reason,
            } && u@ == url@ && reason@ == "Invalid URL format: "@ + uri_failure(url@).unwrap()),
        },
{
    match uri_parse_failure(url) {
        None => Ok(()),
        Some(m) => {
            let mut reason = String::from_str("Invalid URL format: ");
            reason.append(m.as_str());
            Err(Error::DeviceUrlParseError { url: String::from_str(url), reason })
        },
    }
}

/// The error for a device that could not be described at its location.
pub fn device_creation_failed(url: &str, source: String) -> (e: Error)
    ensures
        e matches Error::DeviceCreationError { url: u, source: s } && u@ == url@ && s@ == source@,
{
    Error::DeviceCreationError { url: String::from_str(url), source }
}

/// The search that a specification asks for; none where it names the
/// location of the device.
pub fn search_of(spec: &RenderSpec) -> (r: Option<SearchPlan>)
    ensures
        r == match spec@ {
            RenderSpecView::Location(_) => None,
            RenderSpecView::Query(timeout, _) => Some(
                SearchPlan {
                    duration_secs: timeout,
                    search_attempts: crate::config::SSDP_SEARCH_ATTEMPTS,
                    ttl: Some(crate::config::SSDP_TTL),
                },
            ),
            RenderSpecView::First(timeout) => Some(
                SearchPlan {
                    duration_secs: timeout,
                    search_attempts: crate::config::SSDP_SEARCH_ATTEMPTS,
                    ttl: Some(crate::config::SSDP_TTL),
                },
            ),
        },
{
    match spec {
        RenderSpec::Location(_) => None,
        RenderSpec::Query(timeout, _) => Some(default_search(*timeout)),
        RenderSpec::First(timeout) => Some(default_search(*timeout)),
    }
}

/// The first of `renders` whose written form holds `query`.
pub open spec fn first_match(renders: Seq<RenderView>, query: Seq<char>) -> Option<RenderView>
    decreases renders.len(),
{
    if renders.len() == 0 {
        None
    } else if occurs_in(renders[0].text(), query) {
        Some(renders[0])
    } else {
        first_match(renders.drop_first(), query)
    }
}

/// The render that a specification picks among candidates: for a query, the
/// first whose written form holds it; else the first.
pub open spec fn selection_of(spec: RenderSpecView, candidates: Seq<RenderView>) -> Option<
    RenderView,
> {
    match spec {
        RenderSpecView::Query(_, query) => first_match(candidates, query),
        _ => if candidates.len() > 0 {
            Some(candidates[0])
        } else {
            None
        },
    }
}

/// What is said where a specification picks nothing.
pub open spec fn not_found_context(spec: RenderSpecView) -> Seq<char> {
    match spec {
        RenderSpecView::Location(_) => "Device not found at specified URL"@,
        RenderSpecView::Query(_, query) => "No device found matching query '"@ + query + "'"@,
        RenderSpecView::First(_) => NO_DEVICES_DISCOVERED_MSG@,
    }
}

/// The first render whose written form holds the query.
pub fn select_by_query(renders: &Vec<Render>, query: &str) -> (r: Option<Render>)
    ensures
        match r {
            Some(render) => first_match(render_views(renders@), query@) == Some(render@),
            None => first_match(render_views(renders@), query@).is_none(),
        },
{
    let ghost all = render_views(renders@);
    let mut i: usize = 0;
    assert(all.skip(0) == all);
    while i < renders.len()
        invariant
            i <= renders.len(),
            all == render_views(renders@),
            first_match(all, query@) == first_match(all.skip(i as int), query@),
        decreases renders.len() - i,
    {
        proof {
            assert(all.skip(i as int)[0] == renders[i as int]@);
            assert(all.skip(i as int).drop_first() == all.skip(i + 1));
        }
        let text = renders[i].to_string();
        if str_contains(text.as_str(), query) {
            return Some(renders[i].duplicate());
        }
        i += 1;
    }
    proof {
        assert(all.skip(i as int).len() == 0);
    }
    None
}

/// Picks the render that a specification asks for among the candidates:
/// what was found at the location, or what discovery found.
pub fn select_from(spec: &RenderSpec, candidates: &Vec<Render>) -> (r: Result<Render, Error>)
    ensures
        match r {
            Ok(render) => selection_of(spec@, render_views(candidates@)) == Some(render@),
            Err(e) => selection_of(spec@, render_views(candidates@)).is_none() && (e matches Error::RenderNotFound {
                spec: s,
                context,
            } && s@ == spec@ && context@ == not_found_context(spec@)),
        },
{
    let picked = match spec {
        RenderSpec::Query(_, query) => select_by_query(candidates, query.as_str()),
        _ => {
            if candidates.len() > 0 {
                assert(render_views(candidates@)[0] == candidates[0]@);
                Some(candidates[0].duplicate())
            } else {
                None
            }
        },
    };
    match picked {
        Some(render) => Ok(render),
        None => {
            let context = match spec {
                RenderSpec::Location(_) => String::from_str("Device not found at specified URL"),
                RenderSpec::Query(_, query) => {
                    let mut c = String::from_str("No device found matching query '");
                    c.append(query.as_str());
                    c.append("'");
                    c
                },
                RenderSpec::First(_) => String::from_str(NO_DEVICES_DISCOVERED_MSG),
            };
            Err(Error::RenderNotFound { spec: spec.duplicate(), context })
        },
    }
}

} // verus!
