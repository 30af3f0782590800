//! The page source of the Play Store's review feed.

use crate::review_crawler::traits::HasAppInfo;
use crate::review_crawler::traits::TBuildRequest;
use crate::review_crawler::get_default_pages;
use crate::text::decimal;
use crate::text::decimal_text;
use crate::GOOGLE_PLAY_MAX_PAGES;
use vstd::prelude::*;
use vstd::string::*;

verus! {

/// One application in the Play Store, and the page of its feed that is asked
/// for next.
#[derive(Debug)]
pub struct PlayStoreClient {
    pub app_id: String,
    pub country: String,
    pub pages: u32,
}

/// The target of the request for one page of a Play Store feed: the country
/// code as language and as region, the page number and the application
/// identifier, each in its place.
pub open spec fn play_store_target(country: Seq<char>, app_id: Seq<char>, page: u32) -> Seq<char> {
    "https://play.google.com/store/getreviews?hl="@ + country + "&gl="@ + country
        + "&reviewType=0&reviewSortOrder=4&pageNum="@ + decimal(page as nat) + "&id="@ + app_id
}

impl PlayStoreClient {
    /// A source for the application `app_id` in the store of `country`,
    /// standing at `pages`, or at the first page where none is given.
    pub fn new(app_id: String, country: String, pages: Option<u32>) -> (client: Self)
        ensures
            client.app_id == app_id,
            client.country == country,
            client.pages == match pages {
                Some(page) => page,
                None => 1u32,
            },
    {
        let pages = match pages {
            Some(page) => page,
            None => get_default_pages(),
        };
        PlayStoreClient { app_id, country, pages }
    }
}

impl Clone for PlayStoreClient {
    fn clone(&self) -> (copy: Self)
        ensures
            copy == *self,
    {
        PlayStoreClient {
            app_id: self.app_id.clone(),
            country: self.country.clone(),
            pages: self.pages,
        }
    }
}

impl HasAppInfo for PlayStoreClient {
    open spec fn id_text(&self) -> Seq<char> {
        self.app_id@
    }

    open spec fn country_text(&self) -> Seq<char> {
        self.country@
    }

    fn app_id(&self) -> &str {
        self.app_id.as_str()
    }

    fn country(&self) -> &str {
        self.country.as_str()
    }
}

impl TBuildRequest for PlayStoreClient {
    open spec fn page(&self) -> u32 {
        self.pages
    }

    open spec fn last_page() -> u32 {
        GOOGLE_PLAY_MAX_PAGES
    }

    open spec fn request_target(&self) -> Seq<char> {
        play_store_target(self.country@, self.app_id@, self.pages)
    }

    open spec fn next(&self) -> Self {
        PlayStoreClient {
            app_id: self.app_id,
            country: self.country,
            pages: if self.pages < u32::MAX {
                (self.pages + 1) as u32
            } else {
                self.pages
            },
        }
    }

    proof fn lemma_next_page(&self) {
    }

    fn build_request(&mut self) -> String {
        String::from_str("https://play.google.com/store/getreviews?hl=").concat(
            self.country.as_str(),
        ).concat("&gl=").concat(self.country.as_str()).concat(
            "&reviewType=0&reviewSortOrder=4&pageNum=",
        ).concat(decimal_text(self.pages).as_str()).concat("&id=").concat(self.app_id.as_str())
    }

    fn has_more_pages(&self) -> bool {
        self.pages <= GOOGLE_PLAY_MAX_PAGES
    }

    fn increment_page(&mut self) {
        self.pages += 1;
    }

    fn get_current_page(&self) -> u32 {
        self.pages
    }
}

} // verus!
