//! What a store has to provide for its feed to be walked page by page.

use vstd::prelude::*;

verus! {

/// A source of the pages of one feed: it builds the request for the page it
/// stands at, tells whether that page is still within the feed, and moves on
/// by one page at a time.
pub trait TBuildRequest: Sized {
    /// The page the source stands at.
    spec fn page(&self) -> u32;

    /// The last page of the feed, a constant of the store.
    spec fn last_page() -> u32;

    /// The target of the request for the page the source stands at.
    spec fn request_target(&self) -> Seq<char>;

    /// The source one page further on, with nothing else changed.
    spec fn next(&self) -> Self;

    /// The last page leaves room for the step past it, and that step moves
    /// the source on by exactly one page.
    proof fn lemma_next_page(&self)
        ensures
            Self::last_page() < u32::MAX,
            self.page() < u32::MAX ==> self.next().page() == self.page() + 1,
    ;

    /// Builds the request for the page the source stands at, and leaves the
    /// source as it was.
    fn build_request(&mut self) -> (target: String)
        ensures
            target@ == old(self).request_target(),
            *final(self) == *old(self),
    ;

    /// Whether the page the source stands at is still within the feed: it
    /// is, up to and including the last page.
    fn has_more_pages(&self) -> (more: bool)
        ensures
            more == (self.page() <= Self::last_page()),
    ;

    /// Moves on by exactly one page. The page counter must have room for
    /// the step.
    fn increment_page(&mut self)
        requires
            old(self).page() < u32::MAX,
        ensures
            *final(self) == old(self).next(),
    ;

    /// The page the source stands at.
    fn get_current_page(&self) -> (page: u32)
        ensures
            page == self.page(),
    ;
}

/// What identifies the application that a source belongs to.
pub trait HasAppInfo {
    /// The identifier of the application in its store.
    spec fn id_text(&self) -> Seq<char>;

    /// The code of the country whose reviews are asked for.
    spec fn country_text(&self) -> Seq<char>;

    /// The identifier of the application in its store.
    fn app_id(&self) -> (id: &str)
        ensures
            id@ == self.id_text(),
    ;

    /// The code of the country whose reviews are asked for.
    fn country(&self) -> (code: &str)
        ensures
            code@ == self.country_text(),
    ;
}

} // verus!
