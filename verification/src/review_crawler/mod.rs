//! The walk through the pages of one feed.
//!
//! Fetching a page is left to the caller. The crawler decides what is asked
//! for next and what becomes of each answer: it is told what happened, and
//! says what to do.

use crate::errors::CrawlerError;
use crate::errors::CrawlerErrorView;
use crate::response_processor::pages_view;
use vstd::prelude::*;

pub mod app_store;
pub mod play_store;
pub mod traits;

pub use traits::HasAppInfo;
pub use traits::TBuildRequest;

verus! {

/// The page at which a Play Store feed is entered where none is given.
pub fn get_default_pages() -> (page: u32)
    ensures
        page == 1,
{
    1
}

/// What the caller tells the crawler.
pub enum CrawlEvent {
    /// The crawl begins: nothing was asked for yet.
    Started,
    /// The request that was asked for last was answered with this body.
    Fetched(Vec<u8>),
    /// The request that was asked for last failed, for this cause.
    Failed(String),
}

/// What the crawler tells the caller to do.
pub enum CrawlAction {
    /// Send a request to this target, and come back with what became of it.
    Fetch(String),
    /// The crawl is over: these are the bodies of all pages, in page order.
    Finish(Vec<Vec<u8>>),
    /// The crawl is over and nothing is left of it but this failure.
    Abort(CrawlerError),
}

/// A [`CrawlEvent`] over sequences.
pub enum CrawlEventView {
    Started,
    Fetched(Seq<u8>),
    Failed(Seq<char>),
}

/// A [`CrawlAction`] over sequences.
pub enum CrawlActionView {
    Fetch(Seq<char>),
    Finish(Seq<Seq<u8>>),
    Abort(CrawlerErrorView),
}

impl View for CrawlEvent {
    type V = CrawlEventView;

    open spec fn view(&self) -> CrawlEventView {
        match self {
            CrawlEvent::Started => CrawlEventView::Started,
            CrawlEvent::Fetched(body) => CrawlEventView::Fetched(body@),
            CrawlEvent::Failed(cause) => CrawlEventView::Failed(cause@),
        }
    }
}

impl View for CrawlAction {
    type V = CrawlActionView;

    open spec fn view(&self) -> CrawlActionView {
        match self {
            CrawlAction::Fetch(target) => CrawlActionView::Fetch(target@),
            CrawlAction::Finish(pages) => CrawlActionView::Finish(pages_view(pages@)),
            CrawlAction::Abort(error) => CrawlActionView::Abort(error@),
        }
    }
}

/// Where a crawl stands, and what it asks for: the page source, the bodies
/// held, and the action.
pub struct CrawlStep<C> {
    pub client: C,
    pub pages: Seq<Seq<u8>>,
    pub action: CrawlActionView,
}

/// How a crawl goes on from a source and the bodies fetched so far: while
/// the source has pages left, the page it stands at is asked for; after the
/// last page the bodies are handed over.
pub open spec fn crawl_on<C: TBuildRequest>(client: C, pages: Seq<Seq<u8>>) -> CrawlStep<C> {
    if client.page() <= C::last_page() {
        CrawlStep { client, pages, action: CrawlActionView::Fetch(client.request_target()) }
    } else {
        CrawlStep { client, pages: Seq::empty(), action: CrawlActionView::Finish(pages) }
    }
}

/// What an event makes of a crawl. A body answers the request for the page
/// that the source stands at: it is kept behind those fetched before it, and
/// the source moves on by one page. A body that comes in when the source has
/// no page left answers no request and is dropped. A failure ends the crawl
/// and leaves none of the bodies.
pub open spec fn crawl_step<C: TBuildRequest>(
    client: C,
    pages: Seq<Seq<u8>>,
    event: CrawlEventView,
) -> CrawlStep<C> {
    match event {
        CrawlEventView::Started => crawl_on(client, pages),
        CrawlEventView::Fetched(body) => if client.page() <= C::last_page() {
            crawl_on(client.next(), pages.push(body))
        } else {
            crawl_on(client, pages)
        },
        CrawlEventView::Failed(cause) => CrawlStep {
            client,
            pages: Seq::empty(),
            action: CrawlActionView::Abort(CrawlerErrorView::Request(cause)),
        },
    }
}

/// Walks the pages of one feed and collects their bodies.
pub struct Crawler<C: TBuildRequest> {
    client: C,
    responses: Vec<Vec<u8>>,
}

impl<C: TBuildRequest> Crawler<C> {
    /// The page source of the crawl.
    pub closed spec fn client(&self) -> C {
        self.client
    }

    /// The bodies held, in page order.
    pub closed spec fn pages(&self) -> Seq<Seq<u8>> {
        pages_view(self.responses@)
    }

    /// A crawl over the pages of `client`, from the page it stands at, with
    /// no body fetched yet.
    pub fn new(client: C) -> (crawler: Self)
        ensures
            crawler.client() == client,
            crawler.pages() == Seq::<Seq<u8>>::empty(),
    {
        let crawler = Self { client, responses: Vec::new() };
        crawler
    }

    /// Runs the crawl up to its next request, or to its end.
    ///
    /// Called with [`CrawlEvent::Started`] first, and after that with what
    /// became of the request that the call before asked for.
    pub fn run(&mut self, event: CrawlEvent) -> (action: CrawlAction)
        ensures
            final(self).client() == crawl_step(old(self).client(), old(self).pages(), event@).client,
            final(self).pages() == crawl_step(old(self).client(), old(self).pages(), event@).pages,
            action@ == crawl_step(old(self).client(), old(self).pages(), event@).action,
    {
        match event {
            CrawlEvent::Started => {},
            CrawlEvent::Fetched(body) => {
                if self.client.has_more_pages() {
                    proof {
                        self.client.lemma_next_page();
                    }
                    let ghost held = self.responses@;
                    self.responses.push(body);
                    assert(pages_view(self.responses@) =~= pages_view(held).push(body@));
                    self.client.increment_page();
                }
            },
            CrawlEvent::Failed(cause) => {
                self.responses.clear();
                return CrawlAction::Abort(CrawlerError::Request(cause));
            },
        }
        if self.client.has_more_pages() {
            CrawlAction::Fetch(self.client.build_request())
        } else {
            let mut pages: Vec<Vec<u8>> = Vec::new();
            std::mem::swap(&mut self.responses, &mut pages);
            CrawlAction::Finish(pages)
        }
    }
}

/// The source `n` pages further on.
pub open spec fn source_after<C: TBuildRequest>(client: C, n: nat) -> C
    decreases n,
{
    if n == 0 {
        client
    } else {
        source_after(client, (n - 1) as nat).next()
    }
}

/// Where a crawl stands after it was started and then told of `bodies`, one
/// fetched body after the other.
pub open spec fn crawl_after<C: TBuildRequest>(client: C, bodies: Seq<Seq<u8>>) -> CrawlStep<C>
    decreases bodies.len(),
{
    if bodies.len() == 0 {
        crawl_step(client, Seq::empty(), CrawlEventView::Started)
    } else {
        let before = crawl_after(client, bodies.drop_last());
        crawl_step(before.client, before.pages, CrawlEventView::Fetched(bodies.last()))
    }
}

/// A source that has moved on `n` times stands `n` pages further on, as long
/// as the page counter has room.
pub proof fn lemma_source_after<C: TBuildRequest>(client: C, n: nat)
    requires
        client.page() + n <= u32::MAX,
    ensures
        source_after(client, n).page() == client.page() + n,
    decreases n,
{
    if n > 0 {
        lemma_source_after(client, (n - 1) as nat);
        source_after(client, (n - 1) as nat).lemma_next_page();
    }
}

/// An uninterrupted crawl asks for every page from the one its source stands
/// at to the last page of the feed, each once and in order, and for nothing
/// after that: with `max` the last page and `start` the first, it issues
/// exactly `max - start + 1` requests. While fewer bodies than that have come
/// in, it asks for the next page; with the last of them it hands over all
/// bodies in page order.
pub proof fn lemma_uninterrupted_run<C: TBuildRequest>(client: C, bodies: Seq<Seq<u8>>)
    requires
        client.page() <= C::last_page(),
        bodies.len() <= C::last_page() - client.page() + 1,
    ensures
        source_after(client, bodies.len()).page() == client.page() + bodies.len(),
        bodies.len() <= C::last_page() - client.page() ==> crawl_after(client, bodies)
            == (CrawlStep {
            client: source_after(client, bodies.len()),
            pages: bodies,
            action: CrawlActionView::Fetch(source_after(client, bodies.len()).request_target()),
        }),
        bodies.len() == C::last_page() - client.page() + 1 ==> crawl_after(client, bodies)
            == (CrawlStep {
            client: source_after(client, bodies.len()),
            pages: Seq::empty(),
            action: CrawlActionView::Finish(bodies),
        }),
    decreases bodies.len(),
{
    client.lemma_next_page();
    lemma_source_after(client, bodies.len());
    if bodies.len() > 0 {
        lemma_uninterrupted_run(client, bodies.drop_last());
        assert(bodies.drop_last().push(bodies.last()) =~= bodies);
    } else {
        assert(bodies =~= Seq::<Seq<u8>>::empty());
    }
}

/// No event moves the source back: the page it stands at never falls in the
/// course of a crawl.
pub proof fn lemma_page_never_falls<C: TBuildRequest>(
    client: C,
    pages: Seq<Seq<u8>>,
    event: CrawlEventView,
)
    ensures
        crawl_step(client, pages, event).client.page() >= client.page(),
{
    client.lemma_next_page();
}

/// A source that stands past the last page of its feed issues no request:
/// the crawl is over as it starts, with no body.
pub proof fn lemma_nothing_left<C: TBuildRequest>(client: C)
    requires
        client.page() > C::last_page(),
    ensures
        crawl_after(client, Seq::empty()).action == CrawlActionView::Finish(Seq::empty()),
{
}

/// A failure ends the crawl wherever it stands: the failure is handed on as
/// a request error with its cause, and no body that was fetched before it is
/// left.
pub proof fn lemma_failure_leaves_nothing<C: TBuildRequest>(
    client: C,
    bodies: Seq<Seq<u8>>,
    cause: Seq<char>,
)
    ensures
        crawl_step(
            crawl_after(client, bodies).client,
            crawl_after(client, bodies).pages,
            CrawlEventView::Failed(cause),
        ).action == CrawlActionView::Abort(CrawlerErrorView::Request(cause)),
        crawl_step(
            crawl_after(client, bodies).client,
            crawl_after(client, bodies).pages,
            CrawlEventView::Failed(cause),
        ).pages == Seq::<Seq<u8>>::empty(),
{
}

} // verus!
