//! The three kinds of failure a crawl can end in.

use vstd::prelude::*;
use vstd::string::*;

verus! {

/// A failure of the crawl. The kinds are kept apart: a configuration that
/// could not be loaded, a page that could not be fetched, and a page whose
/// content the XML reader rejected.
#[derive(Debug)]
pub enum CrawlerError {
    ConfigLoad(String),
    Request(String),
    Parse(String),
}

/// A [`CrawlerError`] with its cause as a sequence of characters.
pub enum CrawlerErrorView {
    ConfigLoad(Seq<char>),
    Request(Seq<char>),
    Parse(Seq<char>),
}

impl View for CrawlerError {
    type V = CrawlerErrorView;

    open spec fn view(&self) -> CrawlerErrorView {
        match self {
            CrawlerError::ConfigLoad(msg) => CrawlerErrorView::ConfigLoad(msg@),
            CrawlerError::Request(msg) => CrawlerErrorView::Request(msg@),
            CrawlerError::Parse(msg) => CrawlerErrorView::Parse(msg@),
        }
    }
}

impl CrawlerErrorView {
    /// The words that name the kind of the error.
    pub open spec fn label(self) -> Seq<char> {
        match self {
            CrawlerErrorView::ConfigLoad(_) => "Config load error: "@,
            CrawlerErrorView::Request(_) => "Request error: "@,
            CrawlerErrorView::Parse(_) => "Parse error: "@,
        }
    }

    /// The cause carried by the error.
    pub open spec fn cause(self) -> Seq<char> {
        match self {
            CrawlerErrorView::ConfigLoad(msg) => msg,
            CrawlerErrorView::Request(msg) => msg,
            CrawlerErrorView::Parse(msg) => msg,
        }
    }

    /// The line shown for the error: the label followed by the cause.
    pub open spec fn text(self) -> Seq<char> {
        self.label() + self.cause()
    }
}

impl CrawlerError {
    /// The line shown for the error: the words for its kind, then its cause.
    pub fn to_string(&self) -> (line: String)
        ensures
            line@ == self@.text(),
    {
        match self {
            CrawlerError::ConfigLoad(msg) => String::from_str("Config load error: ").concat(
                msg.as_str(),
            ),
            CrawlerError::Request(msg) => String::from_str("Request error: ").concat(msg.as_str()),
            CrawlerError::Parse(msg) => String::from_str("Parse error: ").concat(msg.as_str()),
        }
    }
}

} // verus!
