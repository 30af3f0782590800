//! Review records of the Play Store.

use crate::errors::CrawlerError;
use crate::errors::CrawlerErrorView;
use crate::response_processor::traits::ReviewView;
use crate::response_processor::traits::TExtractData;
use crate::response_processor::traits::TStoreType;
use crate::OUTPUT_PATH;
use vstd::prelude::*;
use vstd::string::*;

verus! {

/// One review of an application in the Play Store.
#[derive(Debug)]
pub struct PlayStoreReview {
    pub date: String,
    pub star: i32,
    pub like: i32,
    pub dislike: i32,
    pub title: String,
    pub review: String,
}

impl View for PlayStoreReview {
    type V = ReviewView;

    open spec fn view(&self) -> ReviewView {
        ReviewView {
            date: self.date@,
            star: self.star as int,
            like: self.like as int,
            dislike: self.dislike as int,
            title: self.title@,
            review: self.review@,
        }
    }
}

impl Clone for PlayStoreReview {
    fn clone(&self) -> (copy: Self)
        ensures
            copy@ == self@,
    {
        PlayStoreReview {
            date: self.date.clone(),
            star: self.star,
            like: self.like,
            dislike: self.dislike,
            title: self.title.clone(),
            review: self.review.clone(),
        }
    }
}

impl PlayStoreReview {
    /// A record with every field empty or zero.
    pub fn new() -> (review: Self)
        ensures
            review@ == ReviewView::blank(),
    {
        Self {
            date: String::new(),
            star: 0,
            like: 0,
            dislike: 0,
            title: String::new(),
            review: String::new(),
        }
    }
}

impl TStoreType for PlayStoreReview {
    open spec fn output_path(app_id: Seq<char>) -> Seq<char> {
        OUTPUT_PATH@ + "/play_store/"@ + app_id + ".csv"@
    }

    fn get_output_path(&self, app_id: &str) -> String {
        String::from_str(OUTPUT_PATH).concat("/play_store/").concat(app_id).concat(".csv")
    }
}

impl TExtractData for PlayStoreReview {
    /// No page of the Play Store can be read: every page fails, with the
    /// same message.
    open spec fn extraction(response: Seq<u8>) -> Result<Seq<ReviewView>, CrawlerErrorView> {
        Err(CrawlerErrorView::Parse("Play Store pages cannot be read"@))
    }

    fn extract_data(&self, _response: &[u8]) -> Result<Vec<Self>, CrawlerError> {
        Err(CrawlerError::Parse(String::from_str("Play Store pages cannot be read")))
    }
}

} // verus!
