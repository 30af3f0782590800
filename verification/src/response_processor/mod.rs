//! From the raw pages of one application to its review records.

use crate::errors::CrawlerError;
use crate::errors::CrawlerErrorView;
use crate::response_processor::traits::records_view;
use crate::response_processor::traits::TExtractData;
use crate::response_processor::traits::TStoreType;
use std::marker::PhantomData;
use vstd::prelude::*;

pub mod app_store;
pub mod play_store;
pub mod traits;

verus! {

/// The raw pages of one application, in the order in which they were
/// fetched, for records of the kind `T`.
pub struct RawResponse<T> {
    responses: Vec<Vec<u8>>,
    phantom: PhantomData<T>,
}

/// The pages as sequences of bytes.
pub open spec fn pages_view(pages: Seq<Vec<u8>>) -> Seq<Seq<u8>> {
    pages.map_values(|page: Vec<u8>| page@)
}

impl<T> RawResponse<T> {
    /// The pages held, as sequences of bytes.
    pub closed spec fn pages(&self) -> Seq<Seq<u8>> {
        pages_view(self.responses@)
    }

    /// Takes the bodies of the pages of one application, in page order.
    pub fn new(responses: Vec<Vec<u8>>) -> (raw: Self)
        ensures
            raw.pages() == pages_view(responses@),
    {
        Self { responses, phantom: PhantomData }
    }
}

/// What is handed on to be stored for one application: all of its records,
/// and the place where they belong.
pub struct Persist<D> {
    pub destination: String,
    pub records: Vec<D>,
}

/// The records of all `pages` in page order, or the failure of the first
/// page that fails.
pub open spec fn extract_all<D: TExtractData>(pages: Seq<Seq<u8>>) -> Result<
    Seq<D::V>,
    CrawlerErrorView,
>
    decreases pages.len(),
{
    if pages.len() == 0 {
        Ok(Seq::empty())
    } else {
        match extract_all::<D>(pages.drop_last()) {
            Err(error) => Err(error),
            Ok(records) => match D::extraction(pages.last()) {
                Err(error) => Err(error),
                Ok(more) => Ok(records + more),
            },
        }
    }
}

/// Turns the raw pages of one application into its records.
pub struct ResponseProcessor<D: TExtractData + TStoreType> {
    data: RawResponse<D>,
    extractor: D,
    app_id: String,
}

impl<D: TExtractData + TStoreType> ResponseProcessor<D> {
    /// The pages to be processed, as sequences of bytes.
    pub closed spec fn pages(&self) -> Seq<Seq<u8>> {
        self.data.pages()
    }

    /// The identifier of the application that the pages belong to.
    pub closed spec fn id_text(&self) -> Seq<char> {
        self.app_id@
    }

    /// A processor for the pages `data` of the application `app_id`, with
    /// the extractor that reads them.
    pub fn new(data: RawResponse<D>, extractor: D, app_id: String) -> (processor: Self)
        ensures
            processor.pages() == data.pages(),
            processor.id_text() == app_id@,
    {
        Self { data, extractor, app_id }
    }

    /// Extracts the records of every page and puts them together in page
    /// order. Either all pages are read and all of their records are handed
    /// on, with the place where they belong, or the first page that fails
    /// ends the run with its failure and nothing is handed on.
    pub fn run(self) -> (outcome: Result<Persist<D>, CrawlerError>)
        ensures
            match outcome {
                Ok(persist) => {
                    &&& extract_all::<D>(self.pages()) == Ok::<Seq<D::V>, CrawlerErrorView>(
                        records_view(persist.records@),
                    )
                    &&& persist.destination@ == D::output_path(self.id_text())
                },
                Err(error) => extract_all::<D>(self.pages()) == Err::<Seq<D::V>, CrawlerErrorView>(
                    error@,
                ),
            },
    {
        let mut all_data: Vec<D> = Vec::new();
        let responses_count = self.data.responses.len();
        let mut i: usize = 0;
        assert(records_view(all_data@) =~= Seq::<D::V>::empty());
        while i < responses_count
            invariant
                i <= responses_count,
                responses_count == self.data.responses.len(),
                self.pages().len() == responses_count,
                extract_all::<D>(self.pages().take(i as int)) == Ok::<Seq<D::V>, CrawlerErrorView>(
                    records_view(all_data@),
                ),
            decreases responses_count - i,
        {
            let ghost before = records_view(all_data@);
            assert(self.pages().take(i + 1).drop_last() =~= self.pages().take(i as int));
            match self.extractor.extract_data(self.data.responses[i].as_slice()) {
                Ok(mut data) => {
                    let ghost more = records_view(data@);
                    all_data.append(&mut data);
                    assert(records_view(all_data@) =~= before + more);
                },
                Err(error) => {
                    proof {
                        lemma_failure_stays::<D>(self.pages(), i + 1);
                    }
                    return Err(error);
                },
            }
            i = i + 1;
        }
        assert(self.pages().take(i as int) =~= self.pages());
        let destination = self.extractor.get_output_path(self.app_id.as_str());
        Ok(Persist { destination, records: all_data })
    }
}

/// Once the first pages have failed, the pages after them change nothing.
pub proof fn lemma_failure_stays<D: TExtractData>(pages: Seq<Seq<u8>>, n: int)
    requires
        0 <= n <= pages.len(),
        extract_all::<D>(pages.take(n)) is Err,
    ensures
        extract_all::<D>(pages) == extract_all::<D>(pages.take(n)),
    decreases pages.len() - n,
{
    if n == pages.len() {
        assert(pages.take(n) =~= pages);
    } else {
        assert(pages.drop_last().take(n) =~= pages.take(n));
        lemma_failure_stays::<D>(pages.drop_last(), n);
    }
}

/// The records of an application are handed on only if every one of its
/// pages can be read: one page that fails leaves nothing of the others.
pub proof fn lemma_all_or_nothing<D: TExtractData>(pages: Seq<Seq<u8>>)
    ensures
        extract_all::<D>(pages) is Ok <==> forall|i: int|
            0 <= i < pages.len() ==> (#[trigger] D::extraction(pages[i])) is Ok,
    decreases pages.len(),
{
    if pages.len() > 0 {
        lemma_all_or_nothing::<D>(pages.drop_last());
        if extract_all::<D>(pages) is Ok {
            assert forall|i: int| 0 <= i < pages.len() implies (#[trigger] D::extraction(
                pages[i],
            )) is Ok by {
                if i < pages.len() - 1 {
                    assert(pages.drop_last()[i] == pages[i]);
                }
            }
        } else if extract_all::<D>(pages.drop_last()) is Ok {
        } else {
            let i = choose|i: int|
                0 <= i < pages.drop_last().len() && !((#[trigger] D::extraction(
                    pages.drop_last()[i],
                )) is Ok);
        }
    }
}

} // verus!
