//! The applications whose reviews are to be crawled.

use crate::review_crawler::app_store::AppStoreClient;
use crate::review_crawler::play_store::PlayStoreClient;
use vstd::prelude::*;

verus! {

/// The applications to crawl, store by store, each list in the order of the
/// configuration.
#[derive(Debug)]
pub struct Clients {
    pub app_store_apps: Vec<AppStoreClient>,
    pub play_store_apps: Vec<PlayStoreClient>,
}

/// The applications of a configuration that names each store's list or
/// leaves it out: a list that is named is taken as it is, and a list that is
/// left out is empty. Reading the configuration itself is left to the caller.
pub fn load_target_apps(
    app_store: Option<Vec<AppStoreClient>>,
    play_store: Option<Vec<PlayStoreClient>>,
) -> (clients: Clients)
    ensures
        clients.app_store_apps@ == match app_store {
            Some(apps) => apps@,
            None => Seq::empty(),
        },
        clients.play_store_apps@ == match play_store {
            Some(apps) => apps@,
            None => Seq::empty(),
        },
{
    let app_store_apps = match app_store {
        Some(apps) => apps,
        None => Vec::new(),
    };
    let play_store_apps = match play_store {
        Some(apps) => apps,
        None => Vec::new(),
    };
    Clients { app_store_apps, play_store_apps }
}

} // verus!
