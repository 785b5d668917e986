//! Discovery: from what the search yields to the list of renders.
//!
//! Every answer to the search is either a described device or a failure to
//! describe one. A failure is passed over. A device becomes a render if it
//! offers AVTransport and no render with its URL was found before.

use crate::config::{SSDP_SEARCH_ATTEMPTS, SSDP_TTL};
use crate::devices::render::{render_of, DeviceDescription, DeviceView, Render, RenderView};
use crate::text::str_eq;
use vstd::prelude::*;

verus! {

/// One answer to the search.
#[derive(Debug, Clone)]
pub enum DiscoveryEvent {
    /// A device answered and was described
    Found(DeviceDescription),
    /// A device answered and could not be described; the text says why
    Failed(String),
}

/// A `DiscoveryEvent` with its strings as texts.
pub enum DiscoveryEventView {
    Found(DeviceView),
    Failed(Seq<char>),
}

impl View for DiscoveryEvent {
    type V = DiscoveryEventView;

    open spec fn view(&self) -> DiscoveryEventView {
        match self {
            DiscoveryEvent::Found(d) => DiscoveryEventView::Found(d@),
            DiscoveryEvent::Failed(e) => DiscoveryEventView::Failed(e@),
        }
    }
}

/// The parameters of a search.
#[derive(Debug, Clone, Copy, PartialEq, Eq, Structural)]
pub struct SearchPlan {
    /// How long answers are waited for, in seconds
    pub duration_secs: u64,
    /// How often the search is sent
    pub search_attempts: usize,
    /// The hop limit of the search packets
    pub ttl: Option<u32>,
}

/// The search made where only the duration is given.
pub fn default_search(duration_secs: u64) -> (p: SearchPlan)
    ensures
        p == (SearchPlan {
            duration_secs,
            search_attempts: SSDP_SEARCH_ATTEMPTS,
            ttl: Some(SSDP_TTL),
        }),
{
    SearchPlan { duration_secs, search_attempts: SSDP_SEARCH_ATTEMPTS, ttl: Some(SSDP_TTL) }
}

/// The views of a list of renders.
pub open spec fn render_views(renders: Seq<Render>) -> Seq<RenderView> {
    Seq::new(renders.len(), |i: int| renders[i]@)
}

/// The views of a list of events.
pub open spec fn event_views(events: Seq<DiscoveryEvent>) -> Seq<DiscoveryEventView> {
    Seq::new(events.len(), |i: int| events[i]@)
}

/// Whether one of `renders` has the URL `url`.
pub open spec fn has_url(renders: Seq<RenderView>, url: Seq<char>) -> bool {
    exists|i: int| 0 <= i < renders.len() && (#[trigger] renders[i]).url == url
}

/// The render that an event adds to those found before, if any.
pub open spec fn added_by(found: Seq<RenderView>, event: DiscoveryEventView) -> Option<
    RenderView,
> {
    match event {
        DiscoveryEventView::Found(d) => if has_url(found, d.url) {
            None
        } else {
            render_of(d)
        },
        DiscoveryEventView::Failed(_) => None,
    }
}

/// The renders after one more event.
pub open spec fn observed(found: Seq<RenderView>, event: DiscoveryEventView) -> Seq<RenderView> {
    match added_by(found, event) {
        Some(r) => found.push(r),
        None => found,
    }
}

/// The renders that a sequence of events yields.
pub open spec fn renders_of(events: Seq<DiscoveryEventView>) -> Seq<RenderView>
    decreases events.len(),
{
    if events.len() == 0 {
        Seq::empty()
    } else {
        observed(renders_of(events.drop_last()), events.last())
    }
}

/// The renders found so far in a search.
pub struct Discovery {
    renders: Vec<Render>,
}

impl View for Discovery {
    type V = Seq<RenderView>;

    closed spec fn view(&self) -> Seq<RenderView> {
        render_views(self.renders@)
    }
}

impl Discovery {
    /// A search that has found nothing yet.
    pub fn new() -> (d: Self)
        ensures
            d@ == Seq::<RenderView>::empty(),
    {
        let d = Discovery { renders: Vec::new() };
        assert(d@ =~= Seq::<RenderView>::empty());
        d
    }

    /// Whether a render with this URL was found before.
    pub fn knows(&self, url: &str) -> (r: bool)
        ensures
            r == has_url(self@, url@),
    {
        let mut i: usize = 0;
        while i < self.renders.len()
            invariant
                i <= self.renders.len(),
                forall|k: int| 0 <= k < i ==> (#[trigger] self@[k]).url != url@,
            decreases self.renders.len() - i,
        {
            if str_eq(self.renders[i].url.as_str(), url) {
                assert(self@[i as int].url == url@);
                return true;
            }
            i += 1;
        }
        false
    }

    /// Takes one answer to the search into account. Returns whether it
    /// added a render.
    pub fn observe(&mut self, event: &DiscoveryEvent) -> (added: bool)
        ensures
            final(self)@ == observed(old(self)@, event@),
            added == added_by(old(self)@, event@).is_some(),
    {
        match event {
            DiscoveryEvent::Found(device) => {
                if self.knows(device.url.as_str()) {
                    return false;
                }
                match Render::from_device(device) {
                    Some(render) => {
                        self.renders.push(render);
                        assert(self@ =~= old(self)@.push(render@));
                        true
                    },
                    None => false,
                }
            },
            DiscoveryEvent::Failed(_) => false,
        }
    }

    /// How many renders were found.
    pub fn len(&self) -> (n: usize)
        ensures
            n == self@.len(),
    {
        self.renders.len()
    }

    /// The renders found, in the order in which they were first seen.
    pub fn into_renders(self) -> (r: Vec<Render>)
        ensures
            render_views(r@) == self@,
    {
        self.renders
    }
}

/// The renders that the answers to a search yield, in the order in which
/// they were first seen.
pub fn collect_renders(events: &Vec<DiscoveryEvent>) -> (r: Vec<Render>)
    ensures
        render_views(r@) == renders_of(event_views(events@)),
{
    let mut discovery = Discovery::new();
    let mut i: usize = 0;
    while i < events.len()
        invariant
            i <= events.len(),
            discovery@ == renders_of(event_views(events@).take(i as int)),
        decreases events.len() - i,
    {
        proof {
            let all = event_views(events@);
            assert(all.take(i + 1).drop_last() == all.take(i as int));
            assert(all.take(i + 1).last() == events[i as int]@);
        }
        discovery.observe(&events[i]);
        i += 1;
    }
    proof {
        let all = event_views(events@);
        assert(all.take(events.len() as int) == all);
    }
    discovery.into_renders()
}

/// Whether an event is a device at `url` that offers AVTransport.
pub open spec fn is_render_at(event: DiscoveryEventView, url: Seq<char>) -> bool {
    event matches DiscoveryEventView::Found(d) && d.url == url && render_of(d).is_some()
}

/// Whether one of the events is a device at `url` that offers AVTransport.
pub open spec fn seen(events: Seq<DiscoveryEventView>, url: Seq<char>) -> bool {
    exists|k: int| 0 <= k < events.len() && is_render_at(#[trigger] events[k], url)
}

/// The URLs of the devices among the events that offer AVTransport.
pub open spec fn render_urls(events: Seq<DiscoveryEventView>) -> Set<Seq<char>> {
    Set::new(|url: Seq<char>| seen(events, url))
}

proof fn lemma_seen_step(events: Seq<DiscoveryEventView>, url: Seq<char>)
    requires
        events.len() > 0,
    ensures
        seen(events, url) == (seen(events.drop_last(), url) || is_render_at(events.last(), url)),
{
    let init = events.drop_last();
    if seen(events, url) {
        let k = choose|k: int| 0 <= k < events.len() && is_render_at(#[trigger] events[k], url);
        if k < init.len() {
            assert(is_render_at(init[k], url));
        }
    }
    if seen(init, url) {
        let k = choose|k: int| 0 <= k < init.len() && is_render_at(#[trigger] init[k], url);
        assert(is_render_at(events[k], url));
    }
    if is_render_at(events.last(), url) {
        assert(is_render_at(events[events.len() - 1], url));
    }
}

proof fn lemma_has_url_push(found: Seq<RenderView>, r: RenderView, url: Seq<char>)
    ensures
        has_url(found.push(r), url) == (has_url(found, url) || r.url == url),
{
    let next = found.push(r);
    if has_url(next, url) {
        let i = choose|i: int| 0 <= i < next.len() && (#[trigger] next[i]).url == url;
        if i < found.len() {
            assert(found[i].url == url);
        }
    }
    if has_url(found, url) {
        let i = choose|i: int| 0 <= i < found.len() && (#[trigger] found[i]).url == url;
        assert(next[i].url == url);
    }
    if r.url == url {
        assert(next[found.len() as int].url == url);
    }
}

/// A URL has a render exactly if one of the events is a device at that URL
/// that offers AVTransport.
pub proof fn lemma_discovery_finds_every_url(events: Seq<DiscoveryEventView>, url: Seq<char>)
    ensures
        has_url(renders_of(events), url) == seen(events, url),
    decreases events.len(),
{
    if events.len() > 0 {
        let init = events.drop_last();
        let found = renders_of(init);
        let last = events.last();
        lemma_discovery_finds_every_url(init, url);
        lemma_seen_step(events, url);
        match added_by(found, last) {
            Some(r) => {
                lemma_has_url_push(found, r, url);
            },
            None => {
                if is_render_at(last, url) {
                    assert(has_url(found, url));
                }
            },
        }
    }
}

/// No two renders share a URL.
pub proof fn lemma_discovery_urls_are_unique(events: Seq<DiscoveryEventView>)
    ensures
        forall|i: int, j: int|
            0 <= i < j < renders_of(events).len() ==> (#[trigger] renders_of(events)[i]).url != (
            #[trigger] renders_of(events)[j]).url,
    decreases events.len(),
{
    if events.len() > 0 {
        let found = renders_of(events.drop_last());
        lemma_discovery_urls_are_unique(events.drop_last());
        match added_by(found, events.last()) {
            Some(r) => {
                let next = found.push(r);
                assert forall|i: int, j: int| 0 <= i < j < next.len() implies (#[trigger] next[i]).url
                    != (#[trigger] next[j]).url by {
                    if j == found.len() {
                        assert(!has_url(found, r.url));
                        assert(found[i].url != r.url);
                    } else {
                        assert(next[i] == found[i] && next[j] == found[j]);
                    }
                }
            },
            None => {},
        }
    }
}

/// There are exactly as many renders as there are distinct URLs among the
/// devices that offer AVTransport.
pub proof fn lemma_discovery_count(events: Seq<DiscoveryEventView>)
    ensures
        render_urls(events).finite(),
        renders_of(events).len() == render_urls(events).len(),
    decreases events.len(),
{
    if events.len() == 0 {
        assert(render_urls(events) =~= Set::<Seq<char>>::empty());
    } else {
        let init = events.drop_last();
        let found = renders_of(init);
        let last = events.last();
        lemma_discovery_count(init);
        match added_by(found, last) {
            Some(r) => {
                assert forall|url: Seq<char>| #[trigger]
                    render_urls(events).contains(url) == render_urls(init).insert(r.url).contains(
                        url,
                    ) by {
                    lemma_seen_step(events, url);
                }
                assert(render_urls(events) =~= render_urls(init).insert(r.url));
                lemma_discovery_finds_every_url(init, r.url);
                assert(!render_urls(init).contains(r.url));
            },
            None => {
                assert forall|url: Seq<char>| #[trigger]
                    render_urls(events).contains(url) == render_urls(init).contains(url) by {
                    lemma_seen_step(events, url);
                    if is_render_at(last, url) {
                        lemma_discovery_finds_every_url(init, url);
                    }
                }
                assert(render_urls(events) =~= render_urls(init));
            },
        }
    }
}

/// The renders stand in the order in which their URLs were first seen:
/// wherever the URL of a later render is seen, the URL of an earlier one
/// was seen before.
pub proof fn lemma_discovery_first_seen_order(
    events: Seq<DiscoveryEventView>,
    i: int,
    j: int,
    kj: int,
)
    requires
        0 <= i < j < renders_of(events).len(),
        0 <= kj < events.len(),
        is_render_at(events[kj], renders_of(events)[j].url),
    ensures
        exists|ki: int| 0 <= ki < kj && is_render_at(#[trigger] events[ki], renders_of(events)[i].url),
    decreases events.len(),
{
    let init = events.drop_last();
    let found = renders_of(init);
    let last = events.last();
    let r = renders_of(events);
    assert(r == observed(found, last));
    if kj < init.len() && j < found.len() {
        assert(init[kj] == events[kj]);
        assert(r[j] == found[j] && r[i] == found[i]);
        lemma_discovery_first_seen_order(init, i, j, kj);
        let ki = choose|ki: int| 0 <= ki < kj && is_render_at(#[trigger] init[ki], found[i].url);
        assert(is_render_at(events[ki], r[i].url));
    } else {
        // either the URL of render j is seen in the last event, or render j
        // was added by it; in both cases render i was found before
        assert(r[i] == found[i]);
        assert(has_url(found, found[i].url));
        lemma_discovery_finds_every_url(init, found[i].url);
        let ki = choose|ki: int|
            0 <= ki < init.len() && is_render_at(#[trigger] init[ki], found[i].url);
        assert(is_render_at(events[ki], r[i].url));
        if kj < init.len() {
            // render j is new, so its URL was not seen before the last event
            assert(init[kj] == events[kj]);
            assert(seen(init, r[j].url));
            lemma_discovery_finds_every_url(init, r[j].url);
            assert(false);
        }
    }
}

/// Whether event number `k` is a device that is the render `r` and whose
/// URL was not seen before it.
pub open spec fn is_first_sight(events: Seq<DiscoveryEventView>, k: int, r: RenderView) -> bool {
    &&& 0 <= k < events.len()
    &&& events[k] matches DiscoveryEventView::Found(d)
    &&& render_of(d) == Some(r)
    &&& !seen(events.take(k), r.url)
}

/// Each render is what the device was that was first seen at its URL.
pub proof fn lemma_discovery_keeps_first(events: Seq<DiscoveryEventView>, i: int)
    requires
        0 <= i < renders_of(events).len(),
    ensures
        exists|k: int| is_first_sight(events, k, renders_of(events)[i]),
    decreases events.len(),
{
    let init = events.drop_last();
    let found = renders_of(init);
    let last = events.last();
    let r = renders_of(events);
    assert(r == observed(found, last));
    if i < found.len() {
        assert(r[i] == found[i]);
        lemma_discovery_keeps_first(init, i);
        let k = choose|k: int| is_first_sight(init, k, found[i]);
        assert(init.take(k) == events.take(k));
        assert(events[k] == init[k]);
        assert(is_first_sight(events, k, r[i]));
    } else {
        let k = events.len() - 1;
        assert(events.take(k) == init);
        lemma_discovery_finds_every_url(init, r[i].url);
        assert(events[k] == last);
        assert(is_first_sight(events, k, r[i]));
    }
}

} // verus!
