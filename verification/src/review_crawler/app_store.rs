//! The page source of the App Store's customer-review feed.

use crate::review_crawler::traits::HasAppInfo;
use crate::review_crawler::traits::TBuildRequest;
use crate::text::decimal;
use crate::text::decimal_text;
use vstd::prelude::*;
use vstd::string::*;

verus! {

/// The last page of an App Store feed.
pub const APP_STORE_MAX_PAGES: u32 = 10;

/// The page at which an App Store feed is entered where none is given.
pub const APP_STORE_FIRST_PAGE: u32 = 0;

/// One application in the App Store, and the page of its feed that is asked
/// for next.
#[derive(Debug)]
pub struct AppStoreClient {
    pub app_id: String,
    pub country: String,
    pub pages: u32,
}

/// The target of the request for one page of an App Store feed: the country
/// code, the application identifier and the page number, each in its place.
pub open spec fn app_store_target(country: Seq<char>, app_id: Seq<char>, page: u32) -> Seq<char> {
    "https://itunes.apple.com/"@ + country + "/rss/customerreviews/id="@ + app_id + "/page="@
        + decimal(page as nat) + "/sortby=mostrecent/xml"@
}

impl AppStoreClient {
    /// A source for the application `app_id` in the store of `country`,
    /// standing at `pages`, or at the first page where none is given.
    pub fn new(app_id: String, country: String, pages: Option<u32>) -> (client: Self)
        ensures
            client.app_id == app_id,
            client.country == country,
            client.pages == match pages {
                Some(page) => page,
                None => APP_STORE_FIRST_PAGE,
            },
    {
        let pages = match pages {
            Some(page) => page,
            None => APP_STORE_FIRST_PAGE,
        };
        AppStoreClient { app_id, country, pages }
    }
}

impl Clone for AppStoreClient {
    fn clone(&self) -> (copy: Self)
        ensures
            copy == *self,
    {
        AppStoreClient {
            app_id: self.app_id.clone(),
            country: self.country.clone(),
            pages: self.pages,
        }
    }
}

impl HasAppInfo for AppStoreClient {
    open spec fn id_text(&self) -> Seq<char> {
        self.app_id@
    }

    open spec fn country_text(&self) -> Seq<char> {
        self.country@
    }

    fn app_id(&self) -> &str {
        self.app_id.as_str()
    }

    fn country(&self) -> &str {
        self.country.as_str()
    }
}

impl TBuildRequest for AppStoreClient {
    open spec fn page(&self) -> u32 {
        self.pages
    }

    open spec fn last_page() -> u32 {
        APP_STORE_MAX_PAGES
    }

    open spec fn request_target(&self) -> Seq<char> {
        app_store_target(self.country@, self.app_id@, self.pages)
    }

    open spec fn next(&self) -> Self {
        AppStoreClient {
            app_id: self.app_id,
            country: self.country,
            pages: if self.pages < u32::MAX {
                (self.pages + 1) as u32
            } else {
                self.pages
            },
        }
    }

    proof fn lemma_next_page(&self) {
    }

    fn build_request(&mut self) -> String {
        String::from_str("https://itunes.apple.com/").concat(self.country.as_str()).concat(
            "/rss/customerreviews/id=",
        ).concat(self.app_id.as_str()).concat("/page=").concat(
            decimal_text(self.pages).as_str(),
        ).concat("/sortby=mostrecent/xml")
    }

    fn has_more_pages(&self) -> bool {
        self.pages <= APP_STORE_MAX_PAGES
    }

    fn increment_page(&mut self) {
        self.pages += 1;
    }

    fn get_current_page(&self) -> u32 {
        self.pages
    }
}

} // verus!
