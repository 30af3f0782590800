//! What a store has to provide for its pages to be processed.

use crate::errors::CrawlerError;
use crate::errors::CrawlerErrorView;
use vstd::prelude::*;

verus! {

/// A review record with its texts as sequences of characters and its counts
/// as mathematical integers.
pub struct ReviewView {
    pub date: Seq<char>,
    pub star: int,
    pub like: int,
    pub dislike: int,
    pub title: Seq<char>,
    pub review: Seq<char>,
}

impl ReviewView {
    /// The record that every field of is empty or zero.
    pub open spec fn blank() -> ReviewView {
        ReviewView {
            date: Seq::empty(),
            star: 0,
            like: 0,
            dislike: 0,
            title: Seq::empty(),
            review: Seq::empty(),
        }
    }

    /// The record with another date.
    pub open spec fn with_date(self, date: Seq<char>) -> ReviewView {
        ReviewView { date, ..self }
    }

    /// The record with another rating.
    pub open spec fn with_star(self, star: int) -> ReviewView {
        ReviewView { star, ..self }
    }

    /// The record with another number of likes.
    pub open spec fn with_like(self, like: int) -> ReviewView {
        ReviewView { like, ..self }
    }

    /// The record with another number of dislikes.
    pub open spec fn with_dislike(self, dislike: int) -> ReviewView {
        ReviewView { dislike, ..self }
    }

    /// The record with another title.
    pub open spec fn with_title(self, title: Seq<char>) -> ReviewView {
        ReviewView { title, ..self }
    }

    /// The record with another review text.
    pub open spec fn with_review(self, review: Seq<char>) -> ReviewView {
        ReviewView { review, ..self }
    }

    /// Whether the record has both of the texts that it must have.
    pub open spec fn is_complete(self) -> bool {
        self.title.len() > 0 && self.review.len() > 0
    }
}

/// The views of a sequence of records, in the same order.
pub open spec fn records_view<D: View>(records: Seq<D>) -> Seq<D::V> {
    records.map_values(|record: D| record@)
}

/// The outcome of an extraction, over views.
pub open spec fn extracted_view<D: View>(outcome: Result<Vec<D>, CrawlerError>) -> Result<
    Seq<D::V>,
    CrawlerErrorView,
> {
    match outcome {
        Ok(records) => Ok(records_view(records@)),
        Err(error) => Err(error@),
    }
}

/// A store whose records are kept under a place of their own.
pub trait TStoreType {
    /// The place where the records of the application `app_id` are kept.
    spec fn output_path(app_id: Seq<char>) -> Seq<char>;

    /// The place where the records of the application `app_id` are kept.
    fn get_output_path(&self, app_id: &str) -> (path: String)
        ensures
            path@ == Self::output_path(app_id@),
    ;
}

/// A kind of record that can be extracted from the raw bytes of one page.
pub trait TExtractData: Sized + View {
    /// What the bytes of one page hold: its records in document order, or
    /// the failure of the page. It depends on the bytes alone.
    spec fn extraction(response: Seq<u8>) -> Result<Seq<Self::V>, CrawlerErrorView>;

    /// Extracts the records of one page from its raw bytes.
    fn extract_data(&self, response: &[u8]) -> (outcome: Result<Vec<Self>, CrawlerError>)
        ensures
            extracted_view(outcome) == Self::extraction(response@),
    ;
}

/// Extraction depends on the bytes of the page alone: whatever two runs over
/// equal bytes hand out, they end alike, in the same records in the same
/// order or in the same failure.
pub proof fn lemma_extraction_repeats<D: TExtractData>(
    first: Seq<u8>,
    second: Seq<u8>,
    once: Result<Vec<D>, CrawlerError>,
    again: Result<Vec<D>, CrawlerError>,
)
    requires
        first == second,
        extracted_view(once) == D::extraction(first),
        extracted_view(again) == D::extraction(second),
    ensures
        extracted_view(once) == extracted_view(again),
        once is Ok <==> again is Ok,
        once is Ok ==> once->Ok_0@.len() == again->Ok_0@.len() && forall|i: int|
            0 <= i < once->Ok_0@.len() ==> (#[trigger] once->Ok_0@[i])@ == again->Ok_0@[i]@,
        once is Err ==> once->Err_0@ == again->Err_0@,
{
    if once is Ok {
        let a = once->Ok_0@;
        let b = again->Ok_0@;
        assert(records_view(a) == records_view(b));
        assert(records_view(a).len() == a.len());
        assert(records_view(b).len() == b.len());
        assert forall|i: int| 0 <= i < a.len() implies (#[trigger] a[i])@ == b[i]@ by {
            assert(records_view(a)[i] == a[i]@);
            assert(records_view(b)[i] == b[i]@);
        }
    }
}

} // verus!
