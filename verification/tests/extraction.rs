use app_review_crawler::errors::CrawlerError;
use app_review_crawler::response_processor::app_store::AppStoreReview;
use app_review_crawler::response_processor::traits::TExtractData;

#[test]
fn test_extract_app_store_reviews() {
    let xml_content = r#"
        <feed xmlns:im="http://itunes.apple.com/rss" xmlns="http://www.w3.org/2005/Atom" xml:lang="en">
            <id>https://itunes.apple.com/us/rss/customerreviews/id=1194408342/sortby=mostrecent/xml</id>
            <title>iTunes Store: Customer Reviews</title>
            <updated>2025-06-22T11:36:11-07:00</updated>
            <entry>
                <id>12645174720</id>
                <title>Great idea but not well executed.</title>
                <content type="text">If you are test, this isn't it. It could be—and I wish it was. But the clothing choices are not accurate, and the comfort level adjustments are way off. I tried to adjust my comfort level to be warmer by one level and it changed the clothing from a sleeveless short dress to long pants and a long sleeved flannel. Neither of those is appropriate for 71 degrees F. Disappointing to say the least.</content>
                <im:contentType term="Application" label="Application"/>
                <im:voteSum>0</im:voteSum>
                <im:voteCount>0</im:voteCount>
                <im:rating>2</im:rating>
                <updated>2025-05-11T10:19:38-07:00</updated>
                <im:version>7.2.3</im:version>
                <author>
                    <name>Beegirl200073?4!/9</name>
                    <uri>https://itunes.apple.com/us/reviews/id167338708</uri>
                </author>
            </entry>
            <entry>
                <id>12484337193</id>
                <title>Love it!!</title>
                <content type="text">Super helpful and cute! You do have to pay for the subscription to be able to use the widget feature, but I think it's worth the price for the functionality of it.</content>
                <im:contentType term="Application" label="Application"/>
                <im:voteSum>0</im:voteSum>
                <im:voteCount>0</im:voteCount>
                <im:rating>4</im:rating>
                <updated>2025-03-30T15:13:14-07:00</updated>
                <im:version>7.2.2</im:version>
                <author>
                    <name>LenaM720</name>
                    <uri>https://itunes.apple.com/us/reviews/id108277834</uri>
                </author>
            </entry>
        </feed>
        "#;

    let extractor = AppStoreReview::new();
    let result = extractor.extract_data(xml_content.as_bytes());

    assert!(result.is_ok());
    let reviews = result.unwrap();

    assert_eq!(reviews.len(), 2);

    let first = &reviews[0];
    assert_eq!(first.title, "Great idea but not well executed.");
    assert_eq!(first.star, 2);
    assert_eq!(first.like, 0);
    assert_eq!(first.dislike, 0);
    assert_eq!(first.date, "2025-05-11T10:19:38-07:00");
    assert!(first.review.contains("If you are test, this isn't it"));

    let second = &reviews[1];
    assert_eq!(second.title, "Love it!!");
    assert_eq!(second.star, 4);
    assert_eq!(second.like, 0);
    assert_eq!(second.dislike, 0);
    assert_eq!(second.date, "2025-03-30T15:13:14-07:00");
    assert!(second.review.contains("Super helpful and cute!"));
}

#[test]
fn test_extract_data_with_empty_xml() {
    let xml_content = r#"
        <feed xmlns:im="http://itunes.apple.com/rss" xmlns="http://www.w3.org/2005/Atom" xml:lang="en">
            <id>https://itunes.apple.com/us/rss/customerreviews/id=1194408342/sortby=mostrecent/xml</id>
            <title>iTunes Store: Customer Reviews</title>
            <updated>2025-06-22T11:36:11-07:00</updated>
        </feed>
        "#;

    let extractor = AppStoreReview::new();
    let result = extractor.extract_data(xml_content.as_bytes()).unwrap();
    assert!(result.is_empty());
}

#[test]
fn test_extract_data_with_invalid_xml() {
    let invalid_bytes = vec![0xFF, 0xFE, 0x00, 0x00];
    let extractor = AppStoreReview::new();
    let result = extractor.extract_data(&invalid_bytes);
    assert!(result.is_ok());
    assert!(result.unwrap().is_empty());
}

#[test]
fn mismatched_closing_tag_is_a_parse_error() {
    let extractor = AppStoreReview::new();
    let result = extractor.extract_data(b"<feed><entry></feed>");
    match result {
        Err(CrawlerError::Parse(message)) => assert!(!message.is_empty()),
        _ => panic!("a parse error was expected"),
    }
}

fn entry(inner: &str) -> String {
    format!("<feed><updated>2025-06-22T11:36:11-07:00</updated><entry>{}</entry></feed>", inner)
}

fn extract(xml: &str) -> Vec<AppStoreReview> {
    AppStoreReview::new().extract_data(xml.as_bytes()).unwrap()
}

#[test]
fn new_review_is_blank() {
    let review = AppStoreReview::new();
    assert_eq!(review.date, "");
    assert_eq!(review.star, 0);
    assert_eq!(review.like, 0);
    assert_eq!(review.dislike, 0);
    assert_eq!(review.title, "");
    assert_eq!(review.review, "");
    assert!(!review.is_complete());
}

#[test]
fn two_entries_come_out_in_document_order() {
    let xml = "<feed>\
        <entry><title>first</title><content type=\"text\">one</content></entry>\
        <entry><title>second</title><content type=\"text\">two</content></entry>\
        </feed>";
    let reviews = extract(xml);
    assert_eq!(reviews.len(), 2);
    assert_eq!(reviews[0].title, "first");
    assert_eq!(reviews[0].review, "one");
    assert_eq!(reviews[1].title, "second");
    assert_eq!(reviews[1].review, "two");
}

#[test]
fn entry_without_counts_keeps_the_defaults() {
    let reviews = extract(&entry("<title>Fine</title><content type=\"text\">Works</content>"));
    assert_eq!(reviews.len(), 1);
    assert_eq!(reviews[0].title, "Fine");
    assert_eq!(reviews[0].review, "Works");
    assert_eq!(reviews[0].star, 0);
    assert_eq!(reviews[0].like, 0);
    assert_eq!(reviews[0].dislike, 0);
    assert_eq!(reviews[0].date, "");
}

#[test]
fn entry_without_title_is_dropped() {
    let with_title = "<feed>\
        <entry><title>kept</title><content type=\"text\">one</content></entry>\
        <entry><title>also kept</title><content type=\"text\">two</content></entry>\
        </feed>";
    let without_title = "<feed>\
        <entry><title>kept</title><content type=\"text\">one</content></entry>\
        <entry><content type=\"text\">two</content></entry>\
        </feed>";
    let all = extract(with_title);
    let fewer = extract(without_title);
    assert_eq!(all.len(), 2);
    assert_eq!(fewer.len(), all.len() - 1);
    assert_eq!(fewer[0].title, "kept");
}

#[test]
fn entry_with_empty_title_is_dropped() {
    let reviews = extract(&entry("<title></title><content type=\"text\">text</content>"));
    assert!(reviews.is_empty());
}

#[test]
fn entry_without_review_text_is_dropped() {
    let reviews = extract(&entry("<title>only a title</title><im:rating>5</im:rating>"));
    assert!(reviews.is_empty());
}

#[test]
fn dislike_is_votes_less_likes() {
    let reviews = extract(&entry(
        "<title>t</title><content type=\"text\">c</content>\
         <im:voteSum>3</im:voteSum><im:voteCount>10</im:voteCount>",
    ));
    assert_eq!(reviews.len(), 1);
    assert_eq!(reviews[0].like, 3);
    assert_eq!(reviews[0].dislike, 7);
}

#[test]
fn dislike_is_never_negative() {
    let reviews = extract(&entry(
        "<title>t</title><content type=\"text\">c</content>\
         <im:voteSum>5</im:voteSum><im:voteCount>2</im:voteCount>",
    ));
    assert_eq!(reviews.len(), 1);
    assert_eq!(reviews[0].like, 5);
    assert_eq!(reviews[0].dislike, 0);
}

#[test]
fn derive_dislike_on_given_values() {
    assert_eq!(AppStoreReview::derive_dislike(10, 3), 7);
    assert_eq!(AppStoreReview::derive_dislike(2, 5), 0);
    assert_eq!(AppStoreReview::derive_dislike(0, 0), 0);
    assert_eq!(AppStoreReview::derive_dislike(i32::MAX, -1), i32::MAX);
    assert_eq!(AppStoreReview::derive_dislike(i32::MIN, i32::MAX), 0);
}

#[test]
fn votes_counted_before_likes_are_all_dislikes() {
    let reviews = extract(&entry(
        "<title>t</title><content type=\"text\">c</content>\
         <im:voteCount>10</im:voteCount><im:voteSum>3</im:voteSum>",
    ));
    assert_eq!(reviews[0].like, 3);
    assert_eq!(reviews[0].dislike, 10);
}

#[test]
fn html_content_is_ignored() {
    let only_html = extract(&entry("<title>t</title><content type=\"html\">markup</content>"));
    assert!(only_html.is_empty());

    let both = extract(&entry(
        "<title>t</title><content type=\"text\">plain</content>\
         <content type=\"html\">markup</content>",
    ));
    assert_eq!(both.len(), 1);
    assert_eq!(both[0].review, "plain");
}

#[test]
fn content_without_type_is_ignored() {
    let reviews = extract(&entry("<title>t</title><content>plain</content>"));
    assert!(reviews.is_empty());
}

#[test]
fn rating_that_is_no_number_is_zero() {
    let reviews = extract(&entry(
        "<title>t</title><content type=\"text\">c</content>\
         <im:rating>five</im:rating><im:voteSum> 4 </im:voteSum>",
    ));
    assert_eq!(reviews.len(), 1);
    assert_eq!(reviews[0].star, 0);
    assert_eq!(reviews[0].like, 0);
}

#[test]
fn rating_and_date_are_read() {
    let reviews = extract(&entry(
        "<title>t</title><content type=\"text\">c</content>\
         <im:rating>5</im:rating><updated>2025-05-11T10:19:38-07:00</updated>",
    ));
    assert_eq!(reviews[0].star, 5);
    assert_eq!(reviews[0].date, "2025-05-11T10:19:38-07:00");
}

#[test]
fn elements_outside_an_entry_are_ignored() {
    let xml = "<feed><title>feed title</title><content type=\"text\">feed text</content>\
        <entry><content type=\"text\">c</content></entry></feed>";
    assert!(extract(xml).is_empty());
}

#[test]
fn unknown_elements_are_ignored() {
    let reviews = extract(&entry(
        "<im:version>7.2.3</im:version><title>t</title><author><name>n</name></author>\
         <content type=\"text\">c</content><im:surprise kind=\"new\"/>",
    ));
    assert_eq!(reviews.len(), 1);
    assert_eq!(reviews[0].title, "t");
    assert_eq!(reviews[0].review, "c");
}

#[test]
fn a_new_entry_starts_from_a_blank_record() {
    let xml = "<feed>\
        <entry><title>a</title><content type=\"text\">b</content><im:rating>4</im:rating></entry>\
        <entry><title>c</title><content type=\"text\">d</content></entry>\
        </feed>";
    let reviews = extract(xml);
    assert_eq!(reviews.len(), 2);
    assert_eq!(reviews[0].star, 4);
    assert_eq!(reviews[1].star, 0);
}

#[test]
fn text_is_taken_as_it_stands_in_the_document() {
    let reviews = extract(&entry(
        "<title> Tom &amp; Jerry </title><content type=\"text\">a<b>bold</b>c</content>",
    ));
    assert_eq!(reviews.len(), 1);
    assert_eq!(reviews[0].title, " Tom &amp; Jerry ");
    assert_eq!(reviews[0].review, "a<b>bold</b>c");
}

#[test]
fn nested_element_of_the_same_name_is_part_of_the_text() {
    let reviews = extract(&entry(
        "<title>a<title>b</title>c</title><content type=\"text\">d</content>",
    ));
    assert_eq!(reviews.len(), 1);
    assert_eq!(reviews[0].title, "a<title>b</title>c");
}

#[test]
fn white_space_before_the_closing_tag_is_trimmed_after_markup() {
    let reviews = extract(&entry("<title>a<b/> \n </title><content type=\"text\">d</content>"));
    assert_eq!(reviews.len(), 1);
    assert_eq!(reviews[0].title, "a<b/>");
}

#[test]
fn extraction_twice_gives_the_same_records() {
    let xml = entry(
        "<title>t</title><content type=\"text\">c</content><im:voteSum>1</im:voteSum>\
         <im:voteCount>4</im:voteCount><im:rating>3</im:rating>",
    );
    let extractor = AppStoreReview::new();
    let first = extractor.extract_data(xml.as_bytes()).unwrap();
    let second = extractor.extract_data(xml.as_bytes()).unwrap();
    assert_eq!(first.len(), second.len());
    for (a, b) in first.iter().zip(second.iter()) {
        assert_eq!(a.date, b.date);
        assert_eq!(a.star, b.star);
        assert_eq!(a.like, b.like);
        assert_eq!(a.dislike, b.dislike);
        assert_eq!(a.title, b.title);
        assert_eq!(a.review, b.review);
    }
}

#[test]
fn empty_input_has_no_records() {
    assert!(extract("").is_empty());
}

#[test]
fn text_that_is_no_xml_has_no_records() {
    assert!(extract("just some words, no markup").is_empty());
}

#[test]
fn mismatched_closing_tag_carries_the_message_of_the_reader() {
    let result = AppStoreReview::new().extract_data(b"<feed><entry></feed>");
    match result {
        Err(error) => {
            assert!(matches!(error, CrawlerError::Parse(_)));
            assert_eq!(error.to_string(), "Parse error: Expecting </entry> found </feed>");
        }
        Ok(_) => panic!("a parse error was expected"),
    }
}

#[test]
fn unclosed_comment_is_a_parse_error() {
    let result = AppStoreReview::new().extract_data(b"<feed><!-- no end");
    assert!(matches!(result, Err(CrawlerError::Parse(_))));
}

fn failure(xml: &[u8]) -> String {
    match AppStoreReview::new().extract_data(xml) {
        Err(error) => {
            assert!(matches!(error, CrawlerError::Parse(_)));
            error.to_string()
        }
        Ok(reviews) => panic!("a parse error was expected, not {} records", reviews.len()),
    }
}

#[test]
fn input_that_ends_inside_a_text_is_a_parse_error() {
    let xml = "<feed><entry><title>a</title><content type=\"text\">b</content></entry>\
        <entry><title>cut off";
    assert_eq!(
        failure(xml.as_bytes()),
        "Parse error: Unexpected EOF during reading </Ok(\"title\")>"
    );
}

#[test]
fn text_closed_by_another_tag_is_a_parse_error() {
    assert_eq!(
        failure(b"<feed><entry><title>x</entry></feed>"),
        "Parse error: Expecting </title> found </entry>"
    );
}

#[test]
fn failure_inside_a_text_is_a_parse_error() {
    assert_eq!(
        failure(b"<feed><entry><im:rating>1<!-- </im:rating></entry></feed>"),
        "Parse error: Unexpected EOF during reading Comment"
    );
}

#[test]
fn text_that_cannot_be_decoded_is_a_parse_error() {
    let message = failure(b"<feed><entry><title>\xff</title></entry></feed>");
    assert!(message.starts_with("Parse error: Malformed UTF-8 input"));
}

#[test]
fn failure_after_complete_records_leaves_none_of_them() {
    let at_an_event = "<feed><entry><title>a</title><content type=\"text\">b</content></entry>\
        </entry>";
    assert_eq!(failure(at_an_event.as_bytes()), "Parse error: Expecting </feed> found </entry>");

    let inside_a_text = "<feed><entry><title>a</title><content type=\"text\">b</content></entry>\
        <entry><content type=\"text\">c</feed>";
    assert_eq!(
        failure(inside_a_text.as_bytes()),
        "Parse error: Expecting </content> found </feed>"
    );
}

#[test]
fn text_that_is_not_read_cannot_fail_the_page() {
    let xml = b"<feed><title>\xff</title>\
        <entry><title>a</title><content type=\"text\">b</content></entry></feed>";
    let reviews = AppStoreReview::new().extract_data(xml).unwrap();
    assert_eq!(reviews.len(), 1);
    assert_eq!(reviews[0].title, "a");
}
