use libyaml::tag;
use libyaml::{
    Encoding, Event, EventError, EventType, MappingStyle, RawEvent, RawTagDirective,
    RawVersionDirective, ScalarStyle, SequenceStyle, TagDirective, VersionDirective,
};

fn text(s: &str) -> String {
    s.to_string()
}

fn bytes(s: &str) -> Vec<u8> {
    s.as_bytes().to_vec()
}

fn round_trip(event: Event) {
    let raw = event.clone().into_raw().expect("the event has no NUL in it");
    assert_eq!(Event::from_raw(raw), Ok(event));
}

#[test]
fn stream_start_into_raw() {
    let raw = Event::StreamStart { encoding: Some(Encoding::Utf16Le) }.into_raw().unwrap();
    let mut expected = RawEvent::new(libyaml_sys::YAML_STREAM_START_EVENT);
    expected.encoding = libyaml_sys::YAML_UTF16LE_ENCODING;
    assert_eq!(raw, expected);

    let raw = Event::StreamStart { encoding: None }.into_raw().unwrap();
    assert_eq!(raw, RawEvent::new(1));
}

#[test]
fn events_without_fields_into_raw() {
    assert_eq!(Event::StreamEnd.into_raw(), Ok(RawEvent::new(2)));
    assert_eq!(Event::SequenceEnd.into_raw(), Ok(RawEvent::new(8)));
    assert_eq!(Event::MappingEnd.into_raw(), Ok(RawEvent::new(10)));
}

#[test]
fn blank_raw_event() {
    let raw = RawEvent::new(6);
    assert_eq!(raw.type_, 6);
    assert_eq!(raw.encoding, 0);
    assert_eq!(raw.version_directive, None);
    assert!(raw.tag_directives.is_empty());
    assert_eq!(raw.implicit, 0);
    assert_eq!(raw.anchor, None);
    assert_eq!(raw.tag, None);
    assert!(raw.value.is_empty());
    assert_eq!(raw.plain_implicit, 0);
    assert_eq!(raw.quoted_implicit, 0);
    assert_eq!(raw.style, 0);
}

#[test]
fn document_start_into_raw() {
    let event = Event::DocumentStart {
        version: Some(VersionDirective(1, 2)),
        tags: vec![
            TagDirective { handle: text("!"), prefix: text("!local-") },
            TagDirective { handle: text("!e!"), prefix: text("tag:example.com,2000:") },
        ],
        implicit: true,
    };
    let raw = event.into_raw().unwrap();
    assert_eq!(raw.type_, libyaml_sys::YAML_DOCUMENT_START_EVENT);
    assert_eq!(raw.version_directive, Some(RawVersionDirective { major: 1, minor: 2 }));
    assert_eq!(
        raw.tag_directives,
        vec![
            RawTagDirective { handle: bytes("!"), prefix: bytes("!local-") },
            RawTagDirective { handle: bytes("!e!"), prefix: bytes("tag:example.com,2000:") },
        ]
    );
    assert_eq!(raw.implicit, 1);
    assert_eq!(raw.anchor, None);
    assert_eq!(raw.style, 0);
}

#[test]
fn document_end_into_raw() {
    let raw = Event::DocumentEnd { implicit: false }.into_raw().unwrap();
    assert_eq!(raw, RawEvent::new(libyaml_sys::YAML_DOCUMENT_END_EVENT));
    let raw = Event::DocumentEnd { implicit: true }.into_raw().unwrap();
    let mut expected = RawEvent::new(4);
    expected.implicit = 1;
    assert_eq!(raw, expected);
}

#[test]
fn alias_into_raw() {
    let raw = Event::Alias { anchor: text("a1") }.into_raw().unwrap();
    let mut expected = RawEvent::new(libyaml_sys::YAML_ALIAS_EVENT);
    expected.anchor = Some(vec![b'a', b'1']);
    assert_eq!(raw, expected);
}

#[test]
fn scalar_into_raw() {
    let event = Event::Scalar {
        anchor: None,
        tag: Some(tag::INT.to_string()),
        value: text("42"),
        plain_implicit: false,
        quoted_implicit: true,
        style: Some(ScalarStyle::DoubleQuoted),
    };
    let raw = event.into_raw().unwrap();
    let mut expected = RawEvent::new(libyaml_sys::YAML_SCALAR_EVENT);
    expected.tag = Some(bytes("tag:yaml.org,2002:int"));
    expected.value = vec![0x34, 0x32];
    expected.quoted_implicit = 1;
    expected.style = libyaml_sys::YAML_DOUBLE_QUOTED_SCALAR_STYLE;
    assert_eq!(raw, expected);
}

#[test]
fn scalar_value_is_encoded_as_utf8() {
    let event = Event::Scalar {
        anchor: Some(text("é")),
        tag: None,
        value: text("€ 𝄞"),
        plain_implicit: true,
        quoted_implicit: false,
        style: None,
    };
    let raw = event.into_raw().unwrap();
    assert_eq!(raw.anchor, Some(vec![0xc3, 0xa9]));
    assert_eq!(raw.value, vec![0xe2, 0x82, 0xac, 0x20, 0xf0, 0x9d, 0x84, 0x9e]);
    assert_eq!(raw.plain_implicit, 1);
    assert_eq!(raw.quoted_implicit, 0);
    assert_eq!(raw.style, 0);
}

#[test]
fn collection_starts_into_raw() {
    let raw = Event::SequenceStart {
        anchor: Some(text("s")),
        tag: Some(tag::SEQ.to_string()),
        implicit: true,
        style: Some(SequenceStyle::Flow),
    }
    .into_raw()
    .unwrap();
    let mut expected = RawEvent::new(libyaml_sys::YAML_SEQUENCE_START_EVENT);
    expected.anchor = Some(bytes("s"));
    expected.tag = Some(bytes("tag:yaml.org,2002:seq"));
    expected.implicit = 1;
    expected.style = libyaml_sys::YAML_FLOW_SEQUENCE_STYLE;
    assert_eq!(raw, expected);

    let raw = Event::MappingStart {
        anchor: None,
        tag: None,
        implicit: false,
        style: Some(MappingStyle::Block),
    }
    .into_raw()
    .unwrap();
    let mut expected = RawEvent::new(libyaml_sys::YAML_MAPPING_START_EVENT);
    expected.style = libyaml_sys::YAML_BLOCK_MAPPING_STYLE;
    assert_eq!(raw, expected);
}

#[test]
fn nul_in_alias_anchor_is_refused() {
    assert_eq!(Event::Alias { anchor: text("a\0b") }.into_raw(), Err(EventError));
}

#[test]
fn nul_in_scalar_is_refused() {
    let scalar = |anchor: Option<&str>, tag: Option<&str>, value: &str| Event::Scalar {
        anchor: anchor.map(text),
        tag: tag.map(text),
        value: text(value),
        plain_implicit: true,
        quoted_implicit: true,
        style: None,
    };
    assert_eq!(scalar(Some("\0"), None, "v").into_raw(), Err(EventError));
    assert_eq!(scalar(None, Some("t\0"), "v").into_raw(), Err(EventError));
    assert_eq!(scalar(None, None, "\0v").into_raw(), Err(EventError));
    assert_eq!(scalar(Some("a"), Some("t"), "é\0").into_raw(), Err(EventError));
    assert!(scalar(Some("a"), Some("t"), "v").into_raw().is_ok());
    assert!(scalar(None, None, "").into_raw().is_ok());
}

#[test]
fn nul_in_collection_start_is_refused() {
    let sequence = |anchor: Option<&str>, tag: Option<&str>| Event::SequenceStart {
        anchor: anchor.map(text),
        tag: tag.map(text),
        implicit: true,
        style: None,
    };
    assert_eq!(sequence(Some("a\0"), None).into_raw(), Err(EventError));
    assert_eq!(sequence(None, Some("\0")).into_raw(), Err(EventError));
    assert!(sequence(Some("a"), Some("t")).into_raw().is_ok());
    let mapping = |anchor: Option<&str>, tag: Option<&str>| Event::MappingStart {
        anchor: anchor.map(text),
        tag: tag.map(text),
        implicit: true,
        style: None,
    };
    assert_eq!(mapping(Some("\0a"), None).into_raw(), Err(EventError));
    assert_eq!(mapping(None, Some("t\0t")).into_raw(), Err(EventError));
    assert!(mapping(None, None).into_raw().is_ok());
}

#[test]
fn nul_in_tag_directive_is_refused() {
    let document = |tags: Vec<(&str, &str)>| Event::DocumentStart {
        version: None,
        tags: tags
            .into_iter()
            .map(|(handle, prefix)| TagDirective { handle: text(handle), prefix: text(prefix) })
            .collect(),
        implicit: false,
    };
    assert_eq!(document(vec![("!\0", "p")]).into_raw(), Err(EventError));
    assert_eq!(document(vec![("!", "p\0")]).into_raw(), Err(EventError));
    assert_eq!(document(vec![("!", "p"), ("!e!", "q"), ("!f!", "\0")]).into_raw(), Err(EventError));
    assert!(document(vec![("!", "p"), ("!e!", "q")]).into_raw().is_ok());
    assert!(document(vec![]).into_raw().is_ok());
}

#[test]
fn stream_start_from_raw() {
    let mut raw = RawEvent::new(libyaml_sys::YAML_STREAM_START_EVENT);
    raw.encoding = libyaml_sys::YAML_UTF8_ENCODING;
    assert_eq!(Event::from_raw(raw), Ok(Event::StreamStart { encoding: Some(Encoding::Utf8) }));
    let raw = RawEvent::new(libyaml_sys::YAML_STREAM_START_EVENT);
    assert_eq!(Event::from_raw(raw), Ok(Event::StreamStart { encoding: None }));
}

#[test]
fn unknown_type_from_raw() {
    assert_eq!(Event::from_raw(RawEvent::new(libyaml_sys::YAML_NO_EVENT)), Err(EventError));
    assert_eq!(Event::from_raw(RawEvent::new(11)), Err(EventError));
    assert_eq!(Event::from_raw(RawEvent::new(-1)), Err(EventError));
}

#[test]
fn alias_without_anchor_from_raw() {
    assert_eq!(Event::from_raw(RawEvent::new(libyaml_sys::YAML_ALIAS_EVENT)), Err(EventError));
}

#[test]
fn document_start_from_raw() {
    let mut raw = RawEvent::new(libyaml_sys::YAML_DOCUMENT_START_EVENT);
    raw.version_directive = Some(RawVersionDirective { major: 1, minor: 1 });
    raw.tag_directives = vec![RawTagDirective { handle: bytes("!!"), prefix: bytes("tag:yaml.org,2002:") }];
    raw.implicit = 0;
    assert_eq!(
        Event::from_raw(raw),
        Ok(Event::DocumentStart {
            version: Some(VersionDirective(1, 1)),
            tags: vec![TagDirective { handle: text("!!"), prefix: text("tag:yaml.org,2002:") }],
            implicit: false,
        })
    );
}

#[test]
fn any_nonzero_flag_is_true() {
    let mut raw = RawEvent::new(libyaml_sys::YAML_DOCUMENT_END_EVENT);
    raw.implicit = -7;
    assert_eq!(Event::from_raw(raw), Ok(Event::DocumentEnd { implicit: true }));
    let mut raw = RawEvent::new(libyaml_sys::YAML_SCALAR_EVENT);
    raw.plain_implicit = 2;
    raw.quoted_implicit = 0;
    assert_eq!(
        Event::from_raw(raw),
        Ok(Event::Scalar {
            anchor: None,
            tag: None,
            value: String::new(),
            plain_implicit: true,
            quoted_implicit: false,
            style: None,
        })
    );
}

#[test]
fn scalar_from_raw() {
    let mut raw = RawEvent::new(libyaml_sys::YAML_SCALAR_EVENT);
    raw.anchor = Some(bytes("x"));
    raw.tag = Some(bytes("tag:yaml.org,2002:str"));
    raw.value = vec![0xe2, 0x82, 0xac];
    raw.plain_implicit = 1;
    raw.style = libyaml_sys::YAML_LITERAL_SCALAR_STYLE;
    // Fields of other event types are not looked at.
    raw.implicit = 1;
    raw.encoding = 3;
    assert_eq!(
        Event::from_raw(raw),
        Ok(Event::Scalar {
            anchor: Some(text("x")),
            tag: Some(tag::STR.to_string()),
            value: text("€"),
            plain_implicit: true,
            quoted_implicit: false,
            style: Some(ScalarStyle::Literal),
        })
    );
}

#[test]
fn invalid_utf8_is_read_lossily() {
    let mut raw = RawEvent::new(libyaml_sys::YAML_SCALAR_EVENT);
    raw.value = vec![b'a', 0xff, b'b'];
    match Event::from_raw(raw) {
        Ok(Event::Scalar { value, .. }) => assert_eq!(value, "a\u{fffd}b"),
        other => panic!("unexpected {:?}", other),
    }
}

#[test]
fn unknown_style_is_read_as_none() {
    let mut raw = RawEvent::new(libyaml_sys::YAML_SEQUENCE_START_EVENT);
    raw.style = 9;
    raw.implicit = 1;
    assert_eq!(
        Event::from_raw(raw),
        Ok(Event::SequenceStart { anchor: None, tag: None, implicit: true, style: None })
    );
    let mut raw = RawEvent::new(libyaml_sys::YAML_MAPPING_START_EVENT);
    raw.style = libyaml_sys::YAML_FLOW_MAPPING_STYLE;
    raw.anchor = Some(bytes("m"));
    assert_eq!(
        Event::from_raw(raw),
        Ok(Event::MappingStart {
            anchor: Some(text("m")),
            tag: None,
            implicit: false,
            style: Some(MappingStyle::Flow),
        })
    );
}

#[test]
fn events_without_fields_from_raw() {
    assert_eq!(Event::from_raw(RawEvent::new(2)), Ok(Event::StreamEnd));
    assert_eq!(Event::from_raw(RawEvent::new(8)), Ok(Event::SequenceEnd));
    assert_eq!(Event::from_raw(RawEvent::new(10)), Ok(Event::MappingEnd));
}

#[test]
fn events_come_back_from_their_raw_events() {
    round_trip(Event::StreamStart { encoding: None });
    round_trip(Event::StreamStart { encoding: Some(Encoding::Utf16Be) });
    round_trip(Event::StreamEnd);
    round_trip(Event::DocumentStart { version: None, tags: vec![], implicit: true });
    round_trip(Event::DocumentStart {
        version: Some(VersionDirective(1, 255)),
        tags: vec![
            TagDirective { handle: text("!"), prefix: text("!x-") },
            TagDirective { handle: text("!ü!"), prefix: text("tag:bücher.example,2024:") },
        ],
        implicit: false,
    });
    round_trip(Event::DocumentEnd { implicit: true });
    round_trip(Event::DocumentEnd { implicit: false });
    round_trip(Event::Alias { anchor: text("anchor") });
    round_trip(Event::Scalar {
        anchor: Some(text("a")),
        tag: Some(tag::BOOL.to_string()),
        value: text("true"),
        plain_implicit: true,
        quoted_implicit: false,
        style: Some(ScalarStyle::Plain),
    });
    round_trip(Event::Scalar {
        anchor: None,
        tag: None,
        value: text("línea uno\nlínea dos 𝄞\n"),
        plain_implicit: false,
        quoted_implicit: true,
        style: Some(ScalarStyle::Folded),
    });
    round_trip(Event::SequenceStart {
        anchor: Some(text("s")),
        tag: None,
        implicit: true,
        style: Some(SequenceStyle::Block),
    });
    round_trip(Event::SequenceEnd);
    round_trip(Event::MappingStart {
        anchor: None,
        tag: Some(tag::MAP.to_string()),
        implicit: false,
        style: None,
    });
    round_trip(Event::MappingEnd);
}

#[test]
fn empty_stream_comes_back() {
    let events = vec![Event::StreamStart { encoding: None }, Event::StreamEnd];
    let raw: Vec<RawEvent> = events.iter().map(|e| e.clone().into_raw().unwrap()).collect();
    assert_eq!(raw.iter().map(|r| r.type_).collect::<Vec<_>>(), vec![1, 2]);
    let back: Vec<Event> = raw.into_iter().map(|r| Event::from_raw(r).unwrap()).collect();
    assert_eq!(back, events);
}

#[test]
fn event_types() {
    assert_eq!(Event::StreamStart { encoding: None }.type_(), EventType::StreamStart);
    assert_eq!(Event::StreamEnd.type_(), EventType::StreamEnd);
    assert_eq!(
        Event::DocumentStart { version: None, tags: vec![], implicit: true }.type_(),
        EventType::DocumentStart
    );
    assert_eq!(Event::DocumentEnd { implicit: true }.type_(), EventType::DocumentEnd);
    assert_eq!(Event::Alias { anchor: text("a") }.type_(), EventType::Alias);
    assert_eq!(
        Event::Scalar {
            anchor: None,
            tag: None,
            value: text(""),
            plain_implicit: true,
            quoted_implicit: true,
            style: None
        }
        .type_(),
        EventType::Scalar
    );
    assert_eq!(
        Event::SequenceStart { anchor: None, tag: None, implicit: true, style: None }.type_(),
        EventType::SequenceStart
    );
    assert_eq!(Event::SequenceEnd.type_(), EventType::SequenceEnd);
    assert_eq!(
        Event::MappingStart { anchor: None, tag: None, implicit: true, style: None }.type_(),
        EventType::MappingStart
    );
    assert_eq!(Event::MappingEnd.type_(), EventType::MappingEnd);
}

#[test]
fn raw_type_is_the_code_of_the_event_type() {
    let events = vec![
        Event::StreamStart { encoding: None },
        Event::StreamEnd,
        Event::DocumentStart { version: None, tags: vec![], implicit: true },
        Event::DocumentEnd { implicit: true },
        Event::Alias { anchor: text("a") },
        Event::SequenceStart { anchor: None, tag: None, implicit: true, style: None },
        Event::SequenceEnd,
        Event::MappingStart { anchor: None, tag: None, implicit: true, style: None },
        Event::MappingEnd,
    ];
    for event in events {
        let event_type = event.type_();
        let raw = event.into_raw().unwrap();
        assert_eq!(EventType::from_raw(raw.type_), Some(event_type));
    }
}
