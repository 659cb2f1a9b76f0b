use cafe_relay::model::FeedKind;
use cafe_relay::numbers::parse_timestamp;
use cafe_relay::response::{
    classify_response, has_error, ApiDocument, CafeField, FetchError, RawAccount, RawAttachment,
    RawCafe, RawConversation, RawTag,
};

fn account() -> RawAccount {
    RawAccount {
        name: Some(String::from("Ada")),
        alias: Some(String::from("ada")),
        avatar: Some(String::from("https://example.invalid/a.png")),
    }
}

fn conversation() -> RawConversation {
    RawConversation {
        id: Some(String::from("42")),
        date_created: Some(String::from("1700000000")),
        contents: Some(String::from("hello")),
        account: Some(account()),
        cafe: CafeField::Flag,
        tag: None,
        attachments: None,
    }
}

fn document() -> ApiDocument {
    ApiDocument { api_error: None, conversation: Some(conversation()) }
}

#[test]
fn upstream_error_wins() {
    let doc = ApiDocument {
        api_error: Some(String::from("no such feed")),
        conversation: Some(conversation()),
    };
    assert!(has_error(&doc));
    assert!(matches!(classify_response(&doc, FeedKind::User), Err(FetchError::UpstreamError)));
}

#[test]
fn missing_conversation_is_not_found() {
    let doc = ApiDocument { api_error: None, conversation: None };
    assert!(!has_error(&doc));
    assert!(matches!(classify_response(&doc, FeedKind::User), Err(FetchError::NotFound)));
    assert!(matches!(classify_response(&doc, FeedKind::Cafe), Err(FetchError::NotFound)));
}

#[test]
fn user_feed_without_author_context_is_not_found() {
    let mut conv = conversation();
    conv.cafe = CafeField::Missing;
    let doc = ApiDocument { api_error: None, conversation: Some(conv) };
    assert!(matches!(classify_response(&doc, FeedKind::User), Err(FetchError::NotFound)));
}

#[test]
fn complete_user_document_yields_candidate() {
    let doc = document();
    let c = classify_response(&doc, FeedKind::User).expect("candidate");
    assert_eq!(c.id, "42");
    assert_eq!(c.timestamp, 1_700_000_000);
    assert_eq!(c.account_name, "Ada");
    assert_eq!(c.account_alias, "ada");
    assert_eq!(c.body, "hello");
    assert!(c.cafe.is_none());
    assert!(c.tag.is_none());
    assert!(c.attachments.is_empty());
}

#[test]
fn cafe_feed_needs_cafe_record() {
    let doc = document();
    // The conversation carries only the boolean placeholder, so a community
    // feed cannot title itself: malformed.
    assert!(matches!(classify_response(&doc, FeedKind::Cafe), Err(FetchError::Malformed)));

    let mut conv = conversation();
    conv.cafe = CafeField::Info(RawCafe {
        name: Some(String::from("Tea House")),
        alias: Some(String::from("tea")),
    });
    let doc = ApiDocument { api_error: None, conversation: Some(conv) };
    let c = classify_response(&doc, FeedKind::Cafe).expect("candidate");
    let cafe = c.cafe.expect("cafe context");
    assert_eq!(cafe.name, "Tea House");
    assert_eq!(cafe.alias, "tea");
}

#[test]
fn missing_required_field_is_malformed() {
    let mut conv = conversation();
    conv.id = None;
    let doc = ApiDocument { api_error: None, conversation: Some(conv) };
    assert!(matches!(classify_response(&doc, FeedKind::User), Err(FetchError::Malformed)));

    let mut conv = conversation();
    conv.contents = None;
    let doc = ApiDocument { api_error: None, conversation: Some(conv) };
    assert!(matches!(classify_response(&doc, FeedKind::User), Err(FetchError::Malformed)));

    let mut conv = conversation();
    conv.account = None;
    let doc = ApiDocument { api_error: None, conversation: Some(conv) };
    assert!(matches!(classify_response(&doc, FeedKind::User), Err(FetchError::Malformed)));
}

#[test]
fn non_numeric_timestamp_is_malformed() {
    let mut conv = conversation();
    conv.date_created = Some(String::from("17e9"));
    let doc = ApiDocument { api_error: None, conversation: Some(conv) };
    assert!(matches!(classify_response(&doc, FeedKind::User), Err(FetchError::Malformed)));
}

#[test]
fn oversized_timestamp_is_malformed() {
    let mut conv = conversation();
    conv.date_created = Some(String::from("9223372036854775808"));
    let doc = ApiDocument { api_error: None, conversation: Some(conv) };
    assert!(matches!(classify_response(&doc, FeedKind::User), Err(FetchError::Malformed)));
}

#[test]
fn incomplete_tag_is_malformed() {
    let mut conv = conversation();
    conv.tag = Some(RawTag { name: Some(String::from("news")), emoji: None });
    let doc = ApiDocument { api_error: None, conversation: Some(conv) };
    assert!(matches!(classify_response(&doc, FeedKind::User), Err(FetchError::Malformed)));
}

#[test]
fn complete_tag_and_attachments_carry_over() {
    let mut conv = conversation();
    conv.tag = Some(RawTag {
        name: Some(String::from("news")),
        emoji: Some(String::from("N")),
    });
    conv.attachments = Some(vec![
        RawAttachment {
            kind: Some(String::from("video")),
            file: Some(String::from("v.mp4")),
        },
        RawAttachment {
            kind: Some(String::from("image")),
            file: Some(String::from("i.png")),
        },
    ]);
    let doc = ApiDocument { api_error: None, conversation: Some(conv) };
    let c = classify_response(&doc, FeedKind::User).expect("candidate");
    let tag = c.tag.expect("tag");
    assert_eq!(tag.name, "news");
    assert_eq!(tag.emoji, "N");
    assert_eq!(c.attachments.len(), 2);
    assert_eq!(c.attachments[0].kind, "video");
    assert_eq!(c.attachments[1].file, "i.png");
}

#[test]
fn attachment_missing_file_is_malformed() {
    let mut conv = conversation();
    conv.attachments = Some(vec![RawAttachment {
        kind: Some(String::from("image")),
        file: None,
    }]);
    let doc = ApiDocument { api_error: None, conversation: Some(conv) };
    assert!(matches!(classify_response(&doc, FeedKind::User), Err(FetchError::Malformed)));
}

#[test]
fn timestamp_parser_exact_values() {
    assert_eq!(parse_timestamp("0"), Some(0));
    assert_eq!(parse_timestamp("007"), Some(7));
    assert_eq!(parse_timestamp("1700000000"), Some(1_700_000_000));
    assert_eq!(parse_timestamp("9223372036854775807"), Some(i64::MAX));
    assert_eq!(parse_timestamp("9223372036854775808"), None);
    assert_eq!(parse_timestamp(""), None);
    assert_eq!(parse_timestamp("-5"), None);
    assert_eq!(parse_timestamp("12x"), None);
}
