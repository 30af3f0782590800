//! Crawling of paginated app-store review feeds: page bookkeeping, the
//! streaming extraction of review records from one page, and the assembly of
//! the records of one application.

use vstd::prelude::*;

pub mod errors;
pub mod response_processor;
pub mod review_crawler;
pub mod target_app;
pub mod text;
pub mod xml;

verus! {

/// The root under which the records of every application are stored.
pub const OUTPUT_PATH: &'static str = "output";

/// The last page of a Play Store feed.
pub const GOOGLE_PLAY_MAX_PAGES: u32 = 100;

} // verus!
