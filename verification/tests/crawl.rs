use app_review_crawler::errors::CrawlerError;
use app_review_crawler::review_crawler::app_store::AppStoreClient;
use app_review_crawler::review_crawler::play_store::PlayStoreClient;
use app_review_crawler::review_crawler::CrawlAction;
use app_review_crawler::review_crawler::CrawlEvent;
use app_review_crawler::review_crawler::Crawler;
use app_review_crawler::review_crawler::TBuildRequest;

fn app_store(page: u32) -> AppStoreClient {
    AppStoreClient { app_id: "42".to_string(), country: "us".to_string(), pages: page }
}

/// Runs a crawl in which the request with the number `fails_at`, counted
/// from 1, fails and every other one is answered with its own number.
fn crawl<C: TBuildRequest>(client: C, fails_at: Option<usize>) -> (Vec<String>, CrawlAction) {
    let mut crawler = Crawler::new(client);
    let mut requests = Vec::new();
    let mut action = crawler.run(CrawlEvent::Started);
    loop {
        match action {
            CrawlAction::Fetch(target) => {
                requests.push(target);
                let event = if Some(requests.len()) == fails_at {
                    CrawlEvent::Failed("connection reset".to_string())
                } else {
                    CrawlEvent::Fetched(vec![requests.len() as u8])
                };
                action = crawler.run(event);
            }
            last => return (requests, last),
        }
    }
}

#[test]
fn uninterrupted_run_asks_for_every_page_once() {
    let (requests, last) = crawl(app_store(1), None);
    assert_eq!(requests.len(), 10);
    for (i, target) in requests.iter().enumerate() {
        assert!(target.contains(&format!("/page={}/", i + 1)));
    }
    match last {
        CrawlAction::Finish(pages) => {
            assert_eq!(pages.len(), 10);
            for (i, page) in pages.iter().enumerate() {
                assert_eq!(page, &vec![(i + 1) as u8]);
            }
        }
        _ => panic!("the crawl should have finished"),
    }
}

#[test]
fn run_from_a_later_page_asks_for_the_pages_left() {
    let (requests, last) = crawl(app_store(8), None);
    assert_eq!(requests.len(), 3);
    assert!(requests[0].contains("/page=8/"));
    assert!(requests[2].contains("/page=10/"));
    assert!(matches!(last, CrawlAction::Finish(pages) if pages.len() == 3));
}

#[test]
fn run_from_page_zero_asks_for_eleven_pages() {
    let (requests, _) = crawl(app_store(0), None);
    assert_eq!(requests.len(), 11);
    assert!(requests[0].contains("/page=0/"));
}

#[test]
fn run_past_the_last_page_asks_for_nothing() {
    let (requests, last) = crawl(app_store(11), None);
    assert!(requests.is_empty());
    assert!(matches!(last, CrawlAction::Finish(pages) if pages.is_empty()));
}

#[test]
fn play_store_run_asks_for_a_hundred_pages() {
    let client = PlayStoreClient { app_id: "a.b".to_string(), country: "us".to_string(), pages: 1 };
    let (requests, last) = crawl(client, None);
    assert_eq!(requests.len(), 100);
    assert!(requests[99].contains("pageNum=100&"));
    assert!(matches!(last, CrawlAction::Finish(pages) if pages.len() == 100));
}

#[test]
fn failure_on_page_three_leaves_nothing() {
    let (requests, last) = crawl(app_store(1), Some(3));
    assert_eq!(requests.len(), 3);
    match last {
        CrawlAction::Abort(error) => {
            assert!(matches!(error, CrawlerError::Request(_)));
            assert_eq!(error.to_string(), "Request error: connection reset");
        }
        _ => panic!("the crawl should have been aborted"),
    }
}

#[test]
fn failure_of_one_application_leaves_the_other_alone() {
    let (_, failed) = crawl(app_store(1), Some(3));
    let (requests, finished) = crawl(app_store(1), None);
    assert!(matches!(failed, CrawlAction::Abort(_)));
    assert_eq!(requests.len(), 10);
    assert!(matches!(finished, CrawlAction::Finish(pages) if pages.len() == 10));
}

#[test]
fn nothing_is_handed_over_after_a_failure() {
    let mut crawler = Crawler::new(app_store(10));
    assert!(matches!(crawler.run(CrawlEvent::Started), CrawlAction::Fetch(_)));
    assert!(matches!(
        crawler.run(CrawlEvent::Failed("timeout".to_string())),
        CrawlAction::Abort(CrawlerError::Request(_))
    ));
    assert!(matches!(
        crawler.run(CrawlEvent::Fetched(vec![1])),
        CrawlAction::Finish(pages) if pages.len() == 1
    ));
}

#[test]
fn body_that_answers_no_request_is_dropped() {
    let mut crawler = Crawler::new(app_store(11));
    assert!(matches!(
        crawler.run(CrawlEvent::Fetched(vec![1, 2, 3])),
        CrawlAction::Finish(pages) if pages.is_empty()
    ));
}
