//! Review records of the App Store, and their extraction from one page of
//! its customer-review feed.

use crate::errors::CrawlerError;
use crate::errors::CrawlerErrorView;
use crate::response_processor::traits::records_view;
use crate::response_processor::traits::ReviewView;
use crate::response_processor::traits::TExtractData;
use crate::response_processor::traits::TStoreType;
use crate::text::bytes_eq;
use crate::text::number_or_zero;
use crate::text::parse_number;
use crate::xml::attrs_view;
use crate::xml::error_text;
use crate::xml::next_event;
use crate::xml::open_reader;
use crate::xml::read_text;
use crate::xml::read_event_of;
use crate::xml::read_text_of;
use crate::xml::reader_budget;
use crate::xml::set_trim_text;
use crate::xml::trim_text_of;
use crate::xml::xml_error_text;
use crate::xml::xml_reader;
use crate::xml::XmlAttr;
use crate::xml::XmlAttrView;
use crate::xml::XmlEvent;
use crate::xml::XmlEventView;
use crate::OUTPUT_PATH;
use quick_xml::Error;
use quick_xml::Reader;
use vstd::prelude::*;
use vstd::string::*;
use vstd::utf8::is_ascii_chars_encode_utf8;

verus! {

/// One review of an application in the App Store.
#[derive(Debug)]
pub struct AppStoreReview {
    pub date: String,
    pub star: i32,
    pub like: i32,
    pub dislike: i32,
    pub title: String,
    pub review: String,
}

impl View for AppStoreReview {
    type V = ReviewView;

    open spec fn view(&self) -> ReviewView {
        ReviewView {
            date: self.date@,
            star: self.star as int,
            like: self.like as int,
            dislike: self.dislike as int,
            title: self.title@,
            review: self.review@,
        }
    }
}

impl Clone for AppStoreReview {
    fn clone(&self) -> (copy: Self)
        ensures
            copy@ == self@,
    {
        AppStoreReview {
            date: self.date.clone(),
            star: self.star,
            like: self.like,
            dislike: self.dislike,
            title: self.title.clone(),
            review: self.review.clone(),
        }
    }
}

/// The bytes of an element or attribute name.
pub open spec fn tag(name: &str) -> Seq<u8> {
    name.spec_bytes()
}

/// The elements of the feed that the extraction knows.
#[derive(Debug, Clone, Copy, PartialEq, Eq)]
pub enum Element {
    /// `entry`, the element that holds one record.
    Entry,
    /// `title`, the title of the review.
    Title,
    /// `content`, the text of the review.
    Content,
    /// `im:rating`, the number of stars.
    Rating,
    /// `im:voteSum`, the number of likes.
    VoteSum,
    /// `im:voteCount`, the number of all votes.
    VoteCount,
    /// `updated`, the date of the review.
    Updated,
}

/// The element that a tag of the name `name` belongs to, if the extraction
/// knows it.
pub open spec fn element_of(name: Seq<u8>) -> Option<Element> {
    if name == tag("entry") {
        Some(Element::Entry)
    } else if name == tag("title") {
        Some(Element::Title)
    } else if name == tag("content") {
        Some(Element::Content)
    } else if name == tag("im:rating") {
        Some(Element::Rating)
    } else if name == tag("im:voteSum") {
        Some(Element::VoteSum)
    } else if name == tag("im:voteCount") {
        Some(Element::VoteCount)
    } else if name == tag("updated") {
        Some(Element::Updated)
    } else {
        None
    }
}

/// Whether an attribute marks its element as plain text: its name is `type`
/// and its value is `text`.
pub open spec fn is_text_type(attr: XmlAttrView) -> bool {
    attr.key == tag("type") && attr.value == tag("text")
}

/// Whether one of the attributes that the reader could make out marks its
/// element as plain text.
pub open spec fn has_text_type(attrs: Seq<Option<XmlAttrView>>) -> bool {
    exists|i: int|
        0 <= i < attrs.len() && (#[trigger] attrs[i]) is Some && is_text_type(attrs[i]->Some_0)
}

/// The number of dislikes that follows from the number of all votes and the
/// number of likes: their difference, but never less than zero and never
/// more than a record can hold.
pub open spec fn dislike_from(total: int, like: int) -> int {
    if total - like < 0 {
        0
    } else if total - like > i32::MAX {
        i32::MAX as int
    } else {
        total - like
    }
}

/// The record `current` after the text of `element` was read as `text`. A
/// text goes into its field as it is; a count is read as a number, and is 0
/// where the text writes none; the number of all votes gives the number of
/// dislikes, by the number of likes that the record holds at that time.
pub open spec fn recorded(current: ReviewView, element: Element, text: Seq<char>) -> ReviewView {
    match element {
        Element::Entry => current,
        Element::Title => current.with_title(text),
        Element::Content => current.with_review(text),
        Element::Rating => current.with_star(number_or_zero(text)),
        Element::VoteSum => current.with_like(number_or_zero(text)),
        Element::VoteCount => current.with_dislike(
            dislike_from(number_or_zero(text), current.like),
        ),
        Element::Updated => current.with_date(text),
    }
}

/// The records found after the closing tag of a record: the record `current`
/// comes last if it is complete, and is dropped if it is not.
pub open spec fn kept(current: ReviewView, reviews: Seq<ReviewView>) -> Seq<ReviewView> {
    if current.is_complete() {
        reviews.push(current)
    } else {
        reviews
    }
}

/// Where the extraction stands inside one page: whether the reader is inside
/// a record, and the record that is being filled.
pub struct ParseState {
    pub in_entry: bool,
    pub current: ReviewView,
}

impl ParseState {
    /// The state in which the extraction of a page begins.
    pub open spec fn initial() -> ParseState {
        ParseState { in_entry: false, current: ReviewView::blank() }
    }

    /// The state after the opening tag of a record: inside a record, with an
    /// empty record to fill.
    pub open spec fn open_entry(self) -> ParseState {
        ParseState { in_entry: true, current: ReviewView::blank() }
    }

    /// The state after the text of `element` was read as `text`.
    pub open spec fn record(self, element: Element, text: Seq<char>) -> ParseState {
        ParseState { in_entry: self.in_entry, current: recorded(self.current, element, text) }
    }

    /// The state after the closing tag of a record: outside a record again.
    pub open spec fn close_entry(self) -> ParseState {
        ParseState { in_entry: false, current: self.current }
    }

    /// The records found after the closing tag of a record.
    pub open spec fn keep(self, reviews: Seq<ReviewView>) -> Seq<ReviewView> {
        kept(self.current, reviews)
    }
}

/// Whether the text of the element opened by a tag is read: inside a record,
/// for every known element but the record itself, and for `content` only
/// where the tag marks it as plain text.
pub open spec fn reads_text(
    in_entry: bool,
    element: Element,
    attrs: Seq<Option<XmlAttrView>>,
) -> bool {
    &&& in_entry
    &&& element != Element::Entry
    &&& element == Element::Content ==> has_text_type(attrs)
}

/// The reader and the state after an opening tag `name` with the attributes
/// `attrs` was handed out by the reader, or the failure of the reader.
///
/// The opening tag of a record begins an empty record. Where the text of the
/// element is read, it is read up to the closing tag that matches, and goes
/// into the field that belongs to the element; where the reader fails over
/// that text, its failure ends the pass. Every other opening tag changes
/// nothing.
pub open spec fn after_start(
    reader: Reader<&[u8]>,
    state: ParseState,
    name: Seq<u8>,
    attrs: Seq<Option<XmlAttrView>>,
) -> Result<(Reader<&[u8]>, ParseState), Error> {
    match element_of(name) {
        Some(Element::Entry) => Ok((reader, state.open_entry())),
        Some(element) => if reads_text(state.in_entry, element, attrs) {
            match read_text_of(reader, name).0 {
                Ok(text) => Ok((read_text_of(reader, name).1, state.record(element, text))),
                Err(error) => Err(error),
            }
        } else {
            Ok((reader, state))
        },
        None => Ok((reader, state)),
    }
}

/// Where the extraction stands after one event: the reader, the state, and
/// the records found so far.
pub struct ParseStep<'a> {
    pub reader: Reader<&'a [u8]>,
    pub state: ParseState,
    pub reviews: Seq<ReviewView>,
}

/// The step after `event` was handed out by the reader, or the failure of
/// the reader over the text of the element that the event opens. The closing
/// tag of a record decides on the record; a closing tag of another name, and
/// every event that is no tag, changes nothing.
pub open spec fn after_event<'a>(
    reader: Reader<&'a [u8]>,
    state: ParseState,
    reviews: Seq<ReviewView>,
    event: XmlEventView,
) -> Result<ParseStep<'a>, Error> {
    match event {
        XmlEventView::Start { name, attrs } => match after_start(reader, state, name, attrs) {
            Ok(next) => Ok(ParseStep { reader: next.0, state: next.1, reviews }),
            Err(error) => Err(error),
        },
        XmlEventView::End { name } => if element_of(name) == Some(Element::Entry) {
            Ok(ParseStep { reader, state: state.close_entry(), reviews: state.keep(reviews) })
        } else {
            Ok(ParseStep { reader, state, reviews })
        },
        _ => Ok(ParseStep { reader, state, reviews }),
    }
}

/// What is extracted when `reader` is followed to the end of its input from
/// the state `state`, with `reviews` found before: all records in document
/// order, or the failure of the reader.
///
/// Any failure of the reader ends the pass, whether it comes with an event
/// or with the text of an element, and nothing is left of the records found
/// before it: the outcome is a parse error with the message of the reader.
///
/// The reader is followed for as long as its budget falls from one event to
/// the next, which the contract of the reader promises of every event but the
/// end of the input.
pub open spec fn parse_from(
    reader: Reader<&[u8]>,
    state: ParseState,
    reviews: Seq<ReviewView>,
) -> Result<Seq<ReviewView>, CrawlerErrorView>
    decreases reader_budget(reader),
{
    match read_event_of(reader).0 {
        Err(error) => Err(CrawlerErrorView::Parse(xml_error_text(error))),
        Ok(XmlEventView::Eof) => Ok(reviews),
        Ok(event) => match after_event(read_event_of(reader).1, state, reviews, event) {
            Err(error) => Err(CrawlerErrorView::Parse(xml_error_text(error))),
            Ok(next) => if reader_budget(next.reader) < reader_budget(reader) {
                parse_from(next.reader, next.state, next.reviews)
            } else {
                Ok(next.reviews)
            },
        },
    }
}

/// The state that the flag and the record of a running extraction stand for.
pub open spec fn state_of(in_entry: bool, current: AppStoreReview) -> ParseState {
    ParseState { in_entry, current: current@ }
}

impl AppStoreReview {
    /// A record with every field empty or zero.
    pub fn new() -> (review: Self)
        ensures
            review@ == ReviewView::blank(),
    {
        Self {
            date: String::new(),
            star: 0,
            like: 0,
            dislike: 0,
            title: String::new(),
            review: String::new(),
        }
    }

    /// Whether the record has a title and a review text, the two fields
    /// without which it is not kept.
    pub fn is_complete(&self) -> (complete: bool)
        ensures
            complete == self@.is_complete(),
    {
        !self.title.as_str().is_empty() && !self.review.as_str().is_empty()
    }

    /// The number of dislikes, from the number of all votes and the number of
    /// likes.
    pub fn derive_dislike(total: i32, like: i32) -> (dislike: i32)
        ensures
            dislike == dislike_from(total as int, like as int),
    {
        let difference: i64 = total as i64 - like as i64;
        if difference < 0 {
            0
        } else if difference > i32::MAX as i64 {
            i32::MAX
        } else {
            difference as i32
        }
    }

    /// The element that a tag of the name `name` belongs to, if the
    /// extraction knows it.
    pub fn element(name: &[u8]) -> (element: Option<Element>)
        ensures
            element == element_of(name@),
    {
        if bytes_eq(name, "entry".as_bytes()) {
            Some(Element::Entry)
        } else if bytes_eq(name, "title".as_bytes()) {
            Some(Element::Title)
        } else if bytes_eq(name, "content".as_bytes()) {
            Some(Element::Content)
        } else if bytes_eq(name, "im:rating".as_bytes()) {
            Some(Element::Rating)
        } else if bytes_eq(name, "im:voteSum".as_bytes()) {
            Some(Element::VoteSum)
        } else if bytes_eq(name, "im:voteCount".as_bytes()) {
            Some(Element::VoteCount)
        } else if bytes_eq(name, "updated".as_bytes()) {
            Some(Element::Updated)
        } else {
            None
        }
    }

    /// Whether one of the attributes of an opening tag marks its element as
    /// plain text.
    pub fn is_text_content(attrs: &Vec<Option<XmlAttr>>) -> (found: bool)
        ensures
            found == has_text_type(attrs_view(attrs@)),
    {
        let mut i: usize = 0;
        while i < attrs.len()
            invariant
                i <= attrs.len(),
                forall|k: int|
                    0 <= k < i ==> !((#[trigger] attrs_view(attrs@)[k]) is Some && is_text_type(
                        attrs_view(attrs@)[k]->Some_0,
                    )),
            decreases attrs.len() - i,
        {
            match &attrs[i] {
                Some(attr) => {
                    if bytes_eq(attr.key.as_slice(), "type".as_bytes()) && bytes_eq(
                        attr.value.as_slice(),
                        "text".as_bytes(),
                    ) {
                        assert(attrs_view(attrs@)[i as int] == Some(attr@));
                        return true;
                    }
                },
                None => {},
            }
            i = i + 1;
        }
        false
    }

    /// Whether the text of the element opened by a tag is to be read, given
    /// whether the tag stands inside a record.
    pub fn wants_text(in_entry: bool, element: Element, attrs: &Vec<Option<XmlAttr>>) -> (wanted: bool)
        ensures
            wanted == reads_text(in_entry, element, attrs_view(attrs@)),
    {
        match element {
            Element::Entry => false,
            Element::Content => in_entry && Self::is_text_content(attrs),
            _ => in_entry,
        }
    }

    /// Takes in the text that was read for `element`: it goes into the field
    /// that belongs to the element.
    pub fn record(&mut self, element: Element, text: String)
        ensures
            final(self)@ == recorded(old(self)@, element, text@),
    {
        match element {
            Element::Entry => {},
            Element::Title => {
                self.title = text;
            },
            Element::Content => {
                self.review = text;
            },
            Element::Rating => {
                self.star = parse_number(text.as_str());
            },
            Element::VoteSum => {
                self.like = parse_number(text.as_str());
            },
            Element::VoteCount => {
                let total = parse_number(text.as_str());
                self.dislike = Self::derive_dislike(total, self.like);
            },
            Element::Updated => {
                self.date = text;
            },
        }
    }

    /// Decides on the record at the closing tag of its element: it is put
    /// behind the records found before if it is complete, and dropped if it
    /// is not.
    pub fn keep(&self, reviews: &mut Vec<AppStoreReview>)
        ensures
            records_view(final(reviews)@) == kept(self@, records_view(old(reviews)@)),
    {
        if self.is_complete() {
            reviews.push(self.clone());
        }
    }

    /// Takes in an opening tag: begins a record, or reads the text of the
    /// element, up to the closing tag that matches, into the record that is
    /// being filled. Where the reader fails over that text, its failure is
    /// handed back, and the flag and the record are left as they were.
    fn handle_start_event(
        name: &[u8],
        attrs: &Vec<Option<XmlAttr>>,
        reader: &mut Reader<&[u8]>,
        current: &mut AppStoreReview,
        in_entry: &mut bool,
    ) -> (outcome: Result<(), Error>)
        ensures
            match after_start(
                *old(reader),
                state_of(*old(in_entry), *old(current)),
                name@,
                attrs_view(attrs@),
            ) {
                Ok(next) => {
                    &&& outcome is Ok
                    &&& *final(reader) == next.0
                    &&& state_of(*final(in_entry), *final(current)) == next.1
                },
                Err(error) => {
                    &&& outcome == Err::<(), Error>(error)
                    &&& *final(reader) == read_text_of(*old(reader), name@).1
                    &&& *final(in_entry) == *old(in_entry)
                    &&& *final(current) == *old(current)
                },
            },
            reader_budget(*final(reader)) <= reader_budget(*old(reader)),
    {
        match Self::element(name) {
            Some(Element::Entry) => {
                *in_entry = true;
                *current = AppStoreReview::new();
            },
            Some(element) => {
                if Self::wants_text(*in_entry, element, attrs) {
                    match read_text(reader, name) {
                        Ok(text) => {
                            current.record(element, text);
                        },
                        Err(error) => {
                            return Err(error);
                        },
                    }
                }
            },
            None => {},
        }
        Ok(())
    }
}

impl TStoreType for AppStoreReview {
    open spec fn output_path(app_id: Seq<char>) -> Seq<char> {
        OUTPUT_PATH@ + "/app_store/"@ + app_id + ".csv"@
    }

    fn get_output_path(&self, app_id: &str) -> String {
        String::from_str(OUTPUT_PATH).concat("/app_store/").concat(app_id).concat(".csv")
    }
}

impl TExtractData for AppStoreReview {
    /// The records of one page of the feed: the page is read from its first
    /// byte by a reader that trims text, starting outside any record and with
    /// no record found.
    open spec fn extraction(response: Seq<u8>) -> Result<Seq<ReviewView>, CrawlerErrorView> {
        parse_from(trim_text_of(xml_reader(response), true), ParseState::initial(), Seq::empty())
    }

    fn extract_data(&self, response: &[u8]) -> Result<Vec<Self>, CrawlerError> {
        let mut reader = open_reader(response);
        set_trim_text(&mut reader, true);
        let mut reviews: Vec<AppStoreReview> = Vec::new();
        let mut current = AppStoreReview::new();
        let mut in_entry = false;
        assert(records_view(reviews@) =~= Seq::<ReviewView>::empty());
        loop
            invariant
                parse_from(reader, state_of(in_entry, current), records_view(reviews@))
                    == Self::extraction(response@),
            decreases reader_budget(reader),
        {
            match next_event(&mut reader) {
                Ok(XmlEvent::Start { name, attrs }) => {
                    let started = Self::handle_start_event(
                        name.as_slice(),
                        &attrs,
                        &mut reader,
                        &mut current,
                        &mut in_entry,
                    );
                    if let Err(error) = started {
                        return Err(CrawlerError::Parse(error_text(&error)));
                    }
                },
                Ok(XmlEvent::End { name }) => {
                    if bytes_eq(name.as_slice(), "entry".as_bytes()) {
                        current.keep(&mut reviews);
                        in_entry = false;
                    }
                },
                Ok(XmlEvent::Eof) => {
                    return Ok(reviews);
                },
                Ok(XmlEvent::Other) => {},
                Err(error) => {
                    return Err(CrawlerError::Parse(error_text(&error)));
                },
            }
        }
    }
}

/// Each of the seven names that the extraction knows belongs to its own
/// element.
pub proof fn lemma_known_names()
    ensures
        element_of(tag("entry")) == Some(Element::Entry),
        element_of(tag("title")) == Some(Element::Title),
        element_of(tag("content")) == Some(Element::Content),
        element_of(tag("im:rating")) == Some(Element::Rating),
        element_of(tag("im:voteSum")) == Some(Element::VoteSum),
        element_of(tag("im:voteCount")) == Some(Element::VoteCount),
        element_of(tag("updated")) == Some(Element::Updated),
{
    reveal_strlit("entry");
    reveal_strlit("title");
    reveal_strlit("content");
    reveal_strlit("im:rating");
    reveal_strlit("im:voteSum");
    reveal_strlit("im:voteCount");
    reveal_strlit("updated");
    is_ascii_chars_encode_utf8("entry"@);
    is_ascii_chars_encode_utf8("title"@);
    is_ascii_chars_encode_utf8("content"@);
    is_ascii_chars_encode_utf8("im:rating"@);
    is_ascii_chars_encode_utf8("im:voteSum"@);
    is_ascii_chars_encode_utf8("im:voteCount"@);
    is_ascii_chars_encode_utf8("updated"@);
}

/// A record that has a title and a review text is kept, and what the page
/// does not give of it stays at its default.
///
/// Whatever the readers and the state before: after the opening tag of a
/// record, a `title` element whose text is read as `title`, a `content`
/// element marked as plain text whose text is read as `review`, and the
/// closing tag of the record, the record found last has that title and that
/// review text, zero stars, likes and dislikes, and an empty date.
pub proof fn lemma_texts_alone_make_a_record(
    readers: (Reader<&[u8]>, Reader<&[u8]>, Reader<&[u8]>, Reader<&[u8]>),
    attrs: (Seq<Option<XmlAttrView>>, Seq<Option<XmlAttrView>>, Seq<Option<XmlAttrView>>),
    state: ParseState,
    reviews: Seq<ReviewView>,
    title: Seq<char>,
    review: Seq<char>,
)
    requires
        title.len() > 0,
        review.len() > 0,
        read_text_of(readers.1, tag("title")).0 == Ok::<Seq<char>, Error>(title),
        read_text_of(readers.2, tag("content")).0 == Ok::<Seq<char>, Error>(review),
        has_text_type(attrs.2),
    ensures
        ({
            let opened = after_event(
                readers.0,
                state,
                reviews,
                XmlEventView::Start { name: tag("entry"), attrs: attrs.0 },
            );
            let titled = after_event(
                readers.1,
                opened->Ok_0.state,
                opened->Ok_0.reviews,
                XmlEventView::Start { name: tag("title"), attrs: attrs.1 },
            );
            let filled = after_event(
                readers.2,
                titled->Ok_0.state,
                titled->Ok_0.reviews,
                XmlEventView::Start { name: tag("content"), attrs: attrs.2 },
            );
            let closed = after_event(
                readers.3,
                filled->Ok_0.state,
                filled->Ok_0.reviews,
                XmlEventView::End { name: tag("entry") },
            );
            &&& opened is Ok
            &&& titled is Ok
            &&& filled is Ok
            &&& closed is Ok
            &&& closed->Ok_0.reviews == reviews.push(
                ReviewView { date: Seq::empty(), star: 0, like: 0, dislike: 0, title, review },
            )
        }),
{
    lemma_known_names();
}

/// A record without a title is dropped whatever else it holds, and the same
/// record with a title and a review text is kept: at the closing tag of a
/// record, the title alone makes a difference of exactly one record.
pub proof fn lemma_title_decides(
    reader: Reader<&[u8]>,
    in_entry: bool,
    current: ReviewView,
    reviews: Seq<ReviewView>,
    title: Seq<char>,
)
    requires
        title.len() > 0,
        current.review.len() > 0,
    ensures
        ({
            let closing = XmlEventView::End { name: tag("entry") };
            let without = after_event(
                reader,
                ParseState { in_entry, current: current.with_title(Seq::empty()) },
                reviews,
                closing,
            );
            let with = after_event(
                reader,
                ParseState { in_entry, current: current.with_title(title) },
                reviews,
                closing,
            );
            &&& without is Ok
            &&& with is Ok
            &&& without->Ok_0.reviews == reviews
            &&& with->Ok_0.reviews == reviews.push(current.with_title(title))
            &&& with->Ok_0.reviews.len() == without->Ok_0.reviews.len() + 1
        }),
{
    lemma_known_names();
}

/// The number of dislikes is the number of all votes less the number of
/// likes wherever that is neither negative nor too large for a record, zero
/// where the likes outnumber the votes, and it is never negative.
pub proof fn lemma_dislike_is_clamped(total: int, like: int)
    ensures
        0 <= dislike_from(total, like) <= i32::MAX,
        0 <= total - like <= i32::MAX ==> dislike_from(total, like) == total - like,
        total < like ==> dislike_from(total, like) == 0,
{
}

/// Records are only ever added behind those found before: where the rest of
/// the page is read without a failure, the records found so far stay, in
/// their order.
pub proof fn lemma_found_records_stay(
    reader: Reader<&[u8]>,
    state: ParseState,
    reviews: Seq<ReviewView>,
)
    ensures
        reviews.is_prefix_of(state.keep(reviews)),
        parse_from(reader, state, reviews) matches Ok(all) ==> reviews.is_prefix_of(all),
    decreases reader_budget(reader),
{
    match read_event_of(reader).0 {
        Ok(XmlEventView::Eof) => {},
        Ok(event) => {
            match after_event(read_event_of(reader).1, state, reviews, event) {
                Ok(next) => {
                    if reader_budget(next.reader) < reader_budget(reader) {
                        lemma_found_records_stay(next.reader, next.state, next.reviews);
                    }
                },
                Err(_) => {},
            }
        },
        Err(_) => {},
    }
}

/// A failure of the reader that comes in place of an event ends the pass in
/// a parse error with the message of the reader, whatever the state, and
/// leaves none of the records found before it.
pub proof fn lemma_event_failure_ends_the_pass(
    reader: Reader<&[u8]>,
    state: ParseState,
    reviews: Seq<ReviewView>,
    error: Error,
)
    requires
        read_event_of(reader).0 == Err::<XmlEventView, Error>(error),
    ensures
        parse_from(reader, state, reviews) == Err::<Seq<ReviewView>, CrawlerErrorView>(
            CrawlerErrorView::Parse(xml_error_text(error)),
        ),
{
}

/// A failure of the reader over the text of an element that is read ends the
/// pass in the same way: in a parse error with the message of the reader,
/// with none of the records found before it.
pub proof fn lemma_text_failure_ends_the_pass(
    reader: Reader<&[u8]>,
    state: ParseState,
    reviews: Seq<ReviewView>,
    name: Seq<u8>,
    attrs: Seq<Option<XmlAttrView>>,
    element: Element,
    error: Error,
)
    requires
        read_event_of(reader).0 == Ok::<XmlEventView, Error>(
            XmlEventView::Start { name, attrs },
        ),
        element_of(name) == Some(element),
        reads_text(state.in_entry, element, attrs),
        read_text_of(read_event_of(reader).1, name).0 == Err::<Seq<char>, Error>(error),
    ensures
        parse_from(reader, state, reviews) == Err::<Seq<ReviewView>, CrawlerErrorView>(
            CrawlerErrorView::Parse(xml_error_text(error)),
        ),
{
}

} // verus!
