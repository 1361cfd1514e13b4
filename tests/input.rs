use openai_responses::json::{DecodeError, JsonValue};
use openai_responses::request::{
    APIInputMessage, ContentInput, ContentItem, ImageDetail, Input, InputListItem, InputMessage, MessageStatus, Role,
    CONTENT_TAGS, ROLE_WORDS,
};

#[test]
fn text_input_decodes() {
    match Input::from_json("\"hello\"").unwrap() {
        Input::Text(s) => assert_eq!(s, "hello"),
        other => panic!("unexpected {:?}", other),
    }
}

#[test]
fn list_elements_decode_by_tag_with_item_fallback() {
    let text = r#"[
        {"type":"message","role":"user","content":"hi"},
        {"type":"item_reference","id":"item_1"},
        {"role":"assistant","content":"untagged"},
        {"type":"function_call_output","call_id":"c","output":"42"}
    ]"#;
    let items = match Input::from_json(text).unwrap() {
        Input::List(items) => items,
        other => panic!("unexpected {:?}", other),
    };
    assert_eq!(items.len(), 4);
    match &items[0] {
        InputListItem::Message(InputMessage { role: Role::User, content: ContentInput::Text(t) }) => {
            assert_eq!(t, "hi")
        }
        other => panic!("unexpected {:?}", other),
    }
    match &items[1] {
        InputListItem::ItemRef { id } => assert_eq!(id, "item_1"),
        other => panic!("unexpected {:?}", other),
    }
    assert!(matches!(&items[2], InputListItem::Item(JsonValue::Object(_))));
    assert!(matches!(&items[3], InputListItem::Item(JsonValue::Object(_))));
}

#[test]
fn message_with_content_list_decodes() {
    let text = r#"[{"type":"message","role":"developer","content":[
        {"type":"input_text","text":"look"},
        {"type":"input_image","detail":"high","image_url":"https://x/y.png"}
    ]}]"#;
    let items = match Input::from_json(text).unwrap() {
        Input::List(items) => items,
        other => panic!("unexpected {:?}", other),
    };
    match &items[0] {
        InputListItem::Message(InputMessage { role: Role::Developer, content: ContentInput::List(parts) }) => {
            assert_eq!(parts.len(), 2);
            assert!(matches!(&parts[0], ContentItem::Text { text } if text == "look"));
            assert!(matches!(
                &parts[1],
                ContentItem::Image { detail: ImageDetail::High, file_id: None, image_url: Some(u) } if u == "https://x/y.png"
            ));
        }
        other => panic!("unexpected {:?}", other),
    }
}

#[test]
fn top_level_number_is_not_an_input() {
    assert_eq!(
        Input::from_json("42").unwrap_err(),
        DecodeError::InvalidType { expected: "a string or a list" }
    );
}

#[test]
fn bad_role_fails_the_whole_input() {
    let err = Input::from_json(r#"[{"type":"message","role":"robot","content":"x"}]"#).unwrap_err();
    assert_eq!(err, DecodeError::UnknownVariant { found: "robot".to_string(), expected: ROLE_WORDS });
}

#[test]
fn unknown_content_tag_is_an_unknown_variant() {
    let err = Input::from_json(r#"[{"type":"message","role":"user","content":[{"type":"input_video"}]}]"#)
        .unwrap_err();
    assert_eq!(
        err,
        DecodeError::UnknownVariant { found: "input_video".to_string(), expected: CONTENT_TAGS }
    );
}

#[test]
fn content_items_round_trip() {
    let items = || {
        vec![
            ContentItem::Text { text: "t".to_string() },
            ContentItem::Image { detail: ImageDetail::Low, file_id: Some("f".to_string()), image_url: None },
            ContentItem::File { file_data: None, file_id: None, filename: Some("a.pdf".to_string()) },
        ]
    };
    for (item, expected) in items().into_iter().zip(items()) {
        assert_eq!(ContentItem::decode(item.into_json()).unwrap(), expected);
    }
}

#[test]
fn returned_message_round_trips() {
    let make = || APIInputMessage {
        role: Role::Assistant,
        content: ContentItem::Text { text: "done".to_string() },
        status: Some(MessageStatus::Completed),
    };
    let back = APIInputMessage::decode(make().into_json()).unwrap();
    assert_eq!(back.role, Role::Assistant);
    assert_eq!(back.content, ContentItem::Text { text: "done".to_string() });
    assert_eq!(back.status, Some(MessageStatus::Completed));
}
