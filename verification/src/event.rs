use vstd::prelude::*;

use crate::encoding::Encoding;
use crate::event_error::EventError;
use crate::event_type::EventType;
use crate::mapping_style::MappingStyle;
use crate::raw_event::{RawEvent, RawEventView};
use crate::scalar_style::ScalarStyle;
use crate::sequence_style::SequenceStyle;
use crate::sys;
use crate::sys::{flag_code, flag_into_raw};
use crate::tag_directive::{
    raw_tag_directives_view, tag_directives_view, RawTagDirective, RawTagDirectiveView,
    TagDirective, TagDirectiveView,
};
use crate::text::{decode_text, has_nul, lemma_text_round_trip, text_from_raw, text_into_raw};
use crate::version_directive::{RawVersionDirective, VersionDirective};
use vstd::utf8::encode_utf8;

verus! {

/// Emitter or parser event.
#[allow(inconsistent_fields)]
#[derive(Clone, Debug, Eq, Hash, PartialEq)]
pub enum Event {
    /// A *STREAM-START* event.
    StreamStart {
        /// Stream encoding; if `None`, LibYAML will choose an encoding.
        encoding: Option<Encoding>,
    },
    /// A *STREAM-END* event.
    StreamEnd,
    /// A *DOCUMENT-START* event.
    DocumentStart {
        /// Optional version directive.
        version: Option<VersionDirective>,
        /// List of tag directives, can be empty.
        tags: Vec<TagDirective>,
        /// If true, no document start marker will be emitted.
        implicit: bool,
    },
    /// A *DOCUMENT-END* event.
    DocumentEnd {
        /// If true, no document end marker will be emitted.
        implicit: bool,
    },
    /// An *ALIAS* event.
    Alias {
        /// Target anchor name.
        anchor: String,
    },
    /// A *SCALAR* event.
    Scalar {
        /// Optional anchor name.
        anchor: Option<String>,
        /// Optional tag name.
        tag: Option<String>,
        /// Scalar value.
        value: String,
        /// If true, no tag will be emitted for the plain style.
        plain_implicit: bool,
        /// If true, no tag will be emitted for the non-plain styles.
        quoted_implicit: bool,
        /// Scalar style; if `None`, LibYAML will choose a style.
        style: Option<ScalarStyle>,
    },
    /// A *SEQUENCE-START* event.
    SequenceStart {
        /// Optional anchor name.
        anchor: Option<String>,
        /// Optional tag name.
        tag: Option<String>,
        /// If true, no tag will be emitted.
        implicit: bool,
        /// Sequence style; if `None`, LibYAML will choose a style.
        style: Option<SequenceStyle>,
    },
    /// A *SEQUENCE-END* event.
    SequenceEnd,
    /// A *MAPPING-START* event.
    MappingStart {
        /// Optional anchor name.
        anchor: Option<String>,
        /// Optional tag name.
        tag: Option<String>,
        /// If true, no tag will be emitted.
        implicit: bool,
        /// Mapping style; if `None`, LibYAML will choose a style.
        style: Option<MappingStyle>,
    },
    /// A *MAPPING-END* event.
    MappingEnd,
}

/// What an [`Event`] holds, as mathematical values.
#[allow(inconsistent_fields)]
pub enum EventView {
    /// A *STREAM-START* event.
    StreamStart { encoding: Option<Encoding> },
    /// A *STREAM-END* event.
    StreamEnd,
    /// A *DOCUMENT-START* event.
    DocumentStart { version: Option<VersionDirective>, tags: Seq<TagDirectiveView>, implicit: bool },
    /// A *DOCUMENT-END* event.
    DocumentEnd { implicit: bool },
    /// An *ALIAS* event.
    Alias { anchor: Seq<char> },
    /// A *SCALAR* event.
    Scalar {
        anchor: Option<Seq<char>>,
        tag: Option<Seq<char>>,
        value: Seq<char>,
        plain_implicit: bool,
        quoted_implicit: bool,
        style: Option<ScalarStyle>,
    },
    /// A *SEQUENCE-START* event.
    SequenceStart {
        anchor: Option<Seq<char>>,
        tag: Option<Seq<char>>,
        implicit: bool,
        style: Option<SequenceStyle>,
    },
    /// A *SEQUENCE-END* event.
    SequenceEnd,
    /// A *MAPPING-START* event.
    MappingStart {
        anchor: Option<Seq<char>>,
        tag: Option<Seq<char>>,
        implicit: bool,
        style: Option<MappingStyle>,
    },
    /// A *MAPPING-END* event.
    MappingEnd,
}

/// The characters of an optional text.
pub open spec fn option_text_view(text: Option<String>) -> Option<Seq<char>> {
    match text {
        Some(t) => Some(t@),
        None => None,
    }
}

impl View for Event {
    type V = EventView;

    open spec fn view(&self) -> EventView {
        match *self {
            Event::StreamStart { encoding } => EventView::StreamStart { encoding },
            Event::StreamEnd => EventView::StreamEnd,
            Event::DocumentStart { version, tags, implicit } => EventView::DocumentStart {
                version,
                tags: tag_directives_view(tags@),
                implicit,
            },
            Event::DocumentEnd { implicit } => EventView::DocumentEnd { implicit },
            Event::Alias { anchor } => EventView::Alias { anchor: anchor@ },
            Event::Scalar { anchor, tag, value, plain_implicit, quoted_implicit, style } => {
                EventView::Scalar {
                    anchor: option_text_view(anchor),
                    tag: option_text_view(tag),
                    value: value@,
                    plain_implicit,
                    quoted_implicit,
                    style,
                }
            },
            Event::SequenceStart { anchor, tag, implicit, style } => EventView::SequenceStart {
                anchor: option_text_view(anchor),
                tag: option_text_view(tag),
                implicit,
                style,
            },
            Event::SequenceEnd => EventView::SequenceEnd,
            Event::MappingStart { anchor, tag, implicit, style } => EventView::MappingStart {
                anchor: option_text_view(anchor),
                tag: option_text_view(tag),
                implicit,
                style,
            },
            Event::MappingEnd => EventView::MappingEnd,
        }
    }
}

/// True when the optional text is there and holds a NUL character.
pub open spec fn option_has_nul(text: Option<Seq<char>>) -> bool {
    match text {
        Some(t) => has_nul(t),
        None => false,
    }
}

/// The bytes of the C string for an optional text.
pub open spec fn option_encode(text: Option<Seq<char>>) -> Option<Seq<u8>> {
    match text {
        Some(t) => Some(encode_utf8(t)),
        None => None,
    }
}

/// The text that an optional C string is read as.
pub open spec fn option_decode(bytes: Option<Seq<u8>>) -> Option<Seq<char>> {
    match bytes {
        Some(b) => Some(decode_text(b)),
        None => None,
    }
}

impl TagDirectiveView {
    /// True when the handle or the prefix holds a NUL character.
    pub open spec fn has_nul(self) -> bool {
        has_nul(self.handle) || has_nul(self.prefix)
    }

    /// The raw tag directive that this one is written as.
    pub open spec fn raw(self) -> RawTagDirectiveView {
        RawTagDirectiveView { handle: encode_utf8(self.handle), prefix: encode_utf8(self.prefix) }
    }

    /// The tag directive that a raw one is read as.
    pub open spec fn of_raw(raw: RawTagDirectiveView) -> TagDirectiveView {
        TagDirectiveView { handle: decode_text(raw.handle), prefix: decode_text(raw.prefix) }
    }
}

/// The raw tag directives that a list of tag directives is written as.
pub open spec fn tag_directives_raw(tags: Seq<TagDirectiveView>) -> Seq<RawTagDirectiveView> {
    tags.map_values(|t: TagDirectiveView| t.raw())
}

/// The tag directives that a list of raw ones is read as.
pub open spec fn tag_directives_of_raw(raw: Seq<RawTagDirectiveView>) -> Seq<TagDirectiveView> {
    raw.map_values(|t: RawTagDirectiveView| TagDirectiveView::of_raw(t))
}

/// The version directive that an optional raw one is read as.
pub open spec fn option_version_of_raw(raw: Option<RawVersionDirective>) -> Option<
    VersionDirective,
> {
    match raw {
        Some(v) => Some(VersionDirective::of_raw(v)),
        None => None,
    }
}

/// The raw fields of an optional version directive.
pub open spec fn option_version_raw(version: Option<VersionDirective>) -> Option<
    RawVersionDirective,
> {
    match version {
        Some(v) => Some(v.raw()),
        None => None,
    }
}

impl EventView {
    /// The type of the event.
    pub open spec fn type_(self) -> EventType {
        match self {
            EventView::StreamStart { .. } => EventType::StreamStart,
            EventView::StreamEnd => EventType::StreamEnd,
            EventView::DocumentStart { .. } => EventType::DocumentStart,
            EventView::DocumentEnd { .. } => EventType::DocumentEnd,
            EventView::Alias { .. } => EventType::Alias,
            EventView::Scalar { .. } => EventType::Scalar,
            EventView::SequenceStart { .. } => EventType::SequenceStart,
            EventView::SequenceEnd => EventType::SequenceEnd,
            EventView::MappingStart { .. } => EventType::MappingStart,
            EventView::MappingEnd => EventType::MappingEnd,
        }
    }

    /// The event without what LibYAML is free to choose where it is left
    /// the choice: the encoding of the stream and the style of a scalar, a
    /// sequence or a mapping.
    pub open spec fn content(self) -> EventView {
        match self {
            EventView::StreamStart { .. } => EventView::StreamStart { encoding: None },
            EventView::Scalar { anchor, tag, value, plain_implicit, quoted_implicit, .. } => {
                EventView::Scalar {
                    anchor,
                    tag,
                    value,
                    plain_implicit,
                    quoted_implicit,
                    style: None,
                }
            },
            EventView::SequenceStart { anchor, tag, implicit, .. } => EventView::SequenceStart {
                anchor,
                tag,
                implicit,
                style: None,
            },
            EventView::MappingStart { anchor, tag, implicit, .. } => EventView::MappingStart {
                anchor,
                tag,
                implicit,
                style: None,
            },
            _ => self,
        }
    }

    /// True when one of the texts of the event holds a NUL character. Such
    /// an event cannot be handed to LibYAML.
    pub open spec fn has_nul(self) -> bool {
        match self {
            EventView::DocumentStart { tags, .. } => exists|i: int|
                0 <= i < tags.len() && (#[trigger] tags[i]).has_nul(),
            EventView::Alias { anchor } => has_nul(anchor),
            EventView::Scalar { anchor, tag, value, .. } => option_has_nul(anchor)
                || option_has_nul(tag) || has_nul(value),
            EventView::SequenceStart { anchor, tag, .. } => option_has_nul(anchor)
                || option_has_nul(tag),
            EventView::MappingStart { anchor, tag, .. } => option_has_nul(anchor)
                || option_has_nul(tag),
            _ => false,
        }
    }

    /// The raw event that this event is written as, where none of its texts
    /// holds a NUL character. Each text becomes its UTF-8 encoding, each
    /// flag 1 or 0, each absent choice the code by which LibYAML is left to
    /// choose, and every field that the type of the event does not use stays
    /// zero, absent or empty.
    pub open spec fn raw_fields(self) -> RawEventView {
        let blank = RawEventView::blank(self.type_().code());
        match self {
            EventView::StreamStart { encoding } => RawEventView {
                encoding: Encoding::option_code(encoding),
                ..blank
            },
            EventView::StreamEnd => blank,
            EventView::DocumentStart { version, tags, implicit } => RawEventView {
                version_directive: option_version_raw(version),
                tag_directives: tag_directives_raw(tags),
                implicit: flag_code(implicit),
                ..blank
            },
            EventView::DocumentEnd { implicit } => RawEventView {
                implicit: flag_code(implicit),
                ..blank
            },
            EventView::Alias { anchor } => RawEventView {
                anchor: Some(encode_utf8(anchor)),
                ..blank
            },
            EventView::Scalar { anchor, tag, value, plain_implicit, quoted_implicit, style } => {
                RawEventView {
                    anchor: option_encode(anchor),
                    tag: option_encode(tag),
                    value: encode_utf8(value),
                    plain_implicit: flag_code(plain_implicit),
                    quoted_implicit: flag_code(quoted_implicit),
                    style: ScalarStyle::option_code(style),
                    ..blank
                }
            },
            EventView::SequenceStart { anchor, tag, implicit, style } => RawEventView {
                anchor: option_encode(anchor),
                tag: option_encode(tag),
                implicit: flag_code(implicit),
                style: SequenceStyle::option_code(style),
                ..blank
            },
            EventView::SequenceEnd => blank,
            EventView::MappingStart { anchor, tag, implicit, style } => RawEventView {
                anchor: option_encode(anchor),
                tag: option_encode(tag),
                implicit: flag_code(implicit),
                style: MappingStyle::option_code(style),
                ..blank
            },
            EventView::MappingEnd => blank,
        }
    }

    /// What [`Event::into_raw`] gives for this event: its raw fields, or an
    /// error where one of its texts holds a NUL character.
    pub open spec fn raw(self) -> Result<RawEventView, EventError> {
        if self.has_nul() {
            Err(EventError)
        } else {
            Ok(self.raw_fields())
        }
    }

    /// What [`Event::from_raw`] gives for a raw event: the event of the type
    /// that the type code stands for, made of the fields that this type
    /// uses. A flag is set where its field is not zero, a style or encoding
    /// is there where its code stands for one, and each C string is read as
    /// a text. There is no event for a type code that stands for no type,
    /// nor for an *ALIAS* without an anchor.
    pub open spec fn of_raw(raw: RawEventView) -> Result<EventView, EventError> {
        match EventType::of_code(raw.type_) {
            None => Err(EventError),
            Some(EventType::StreamStart) => Ok(
                EventView::StreamStart { encoding: Encoding::of_code(raw.encoding) },
            ),
            Some(EventType::StreamEnd) => Ok(EventView::StreamEnd),
            Some(EventType::DocumentStart) => Ok(
                EventView::DocumentStart {
                    version: option_version_of_raw(raw.version_directive),
                    tags: tag_directives_of_raw(raw.tag_directives),
                    implicit: raw.implicit != 0,
                },
            ),
            Some(EventType::DocumentEnd) => Ok(
                EventView::DocumentEnd { implicit: raw.implicit != 0 },
            ),
            Some(EventType::Alias) => match raw.anchor {
                Some(anchor) => Ok(EventView::Alias { anchor: decode_text(anchor) }),
                None => Err(EventError),
            },
            Some(EventType::Scalar) => Ok(
                EventView::Scalar {
                    anchor: option_decode(raw.anchor),
                    tag: option_decode(raw.tag),
                    value: decode_text(raw.value),
                    plain_implicit: raw.plain_implicit != 0,
                    quoted_implicit: raw.quoted_implicit != 0,
                    style: ScalarStyle::of_code(raw.style),
                },
            ),
            Some(EventType::SequenceStart) => Ok(
                EventView::SequenceStart {
                    anchor: option_decode(raw.anchor),
                    tag: option_decode(raw.tag),
                    implicit: raw.implicit != 0,
                    style: SequenceStyle::of_code(raw.style),
                },
            ),
            Some(EventType::SequenceEnd) => Ok(EventView::SequenceEnd),
            Some(EventType::MappingStart) => Ok(
                EventView::MappingStart {
                    anchor: option_decode(raw.anchor),
                    tag: option_decode(raw.tag),
                    implicit: raw.implicit != 0,
                    style: MappingStyle::of_code(raw.style),
                },
            ),
            Some(EventType::MappingEnd) => Ok(EventView::MappingEnd),
        }
    }
}

/// A list of tag directives without NUL is read back unchanged from the raw
/// tag directives that it is written as.
proof fn lemma_tag_directives_round_trip(tags: Seq<TagDirectiveView>)
    requires
        forall|i: int| 0 <= i < tags.len() ==> !(#[trigger] tags[i]).has_nul(),
    ensures
        tag_directives_of_raw(tag_directives_raw(tags)) == tags,
{
    let back = tag_directives_of_raw(tag_directives_raw(tags));
    assert forall|i: int| 0 <= i < tags.len() implies back[i] == tags[i] by {
        assert(!tags[i].has_nul());
        lemma_text_round_trip(tags[i].handle);
        lemma_text_round_trip(tags[i].prefix);
    }
    assert(back =~= tags);
}

/// An optional text without NUL is read back unchanged from the bytes that
/// it is written as.
proof fn lemma_option_text_round_trip(text: Option<Seq<char>>)
    requires
        !option_has_nul(text),
    ensures
        option_decode(option_encode(text)) == text,
{
    if let Some(t) = text {
        lemma_text_round_trip(t);
    }
}

impl EventView {
    /// Writing an event as a raw event and reading that raw event gives the
    /// event again, for every event that can be written: one none of whose
    /// texts holds a NUL character.
    pub proof fn lemma_raw_round_trip(self)
        requires
            !self.has_nul(),
        ensures
            self.raw() == Ok::<RawEventView, EventError>(self.raw_fields()),
            EventView::of_raw(self.raw_fields()) == Ok::<EventView, EventError>(self),
    {
        EventType::lemma_code_round_trip(self.type_());
        match self {
            EventView::StreamStart { encoding } => {
                Encoding::lemma_code_round_trip(encoding);
            },
            EventView::DocumentStart { version, tags, implicit } => {
                assert forall|i: int| 0 <= i < tags.len() implies !(#[trigger] tags[i]).has_nul() by {}
                lemma_tag_directives_round_trip(tags);
                if let Some(v) = version {
                    v.lemma_raw_round_trip();
                }
            },
            EventView::Alias { anchor } => {
                lemma_text_round_trip(anchor);
            },
            EventView::Scalar { anchor, tag, value, style, .. } => {
                lemma_option_text_round_trip(anchor);
                lemma_option_text_round_trip(tag);
                lemma_text_round_trip(value);
                ScalarStyle::lemma_code_round_trip(style);
            },
            EventView::SequenceStart { anchor, tag, style, .. } => {
                lemma_option_text_round_trip(anchor);
                lemma_option_text_round_trip(tag);
                SequenceStyle::lemma_code_round_trip(style);
            },
            EventView::MappingStart { anchor, tag, style, .. } => {
                lemma_option_text_round_trip(anchor);
                lemma_option_text_round_trip(tag);
                MappingStyle::lemma_code_round_trip(style);
            },
            _ => {},
        }
    }

    /// Whatever encoding and style LibYAML chooses, the rest comes back. If
    /// a raw event agrees with the raw event that an event is written as in
    /// every field but the encoding and the style, then it is read as an
    /// event that agrees with the event written in everything but the
    /// encoding and the style.
    pub proof fn lemma_round_trip_up_to_style(self, back: RawEventView)
        requires
            !self.has_nul(),
            back.content() == self.raw_fields().content(),
        ensures
            EventView::of_raw(back) matches Ok(event) && event.content() == self.content(),
    {
        self.lemma_raw_round_trip();
    }
}

/// The event or error that a result of [`Event::from_raw`] holds, as
/// mathematical values.
pub open spec fn event_result_view(result: Result<Event, EventError>) -> Result<
    EventView,
    EventError,
> {
    match result {
        Ok(event) => Ok(event@),
        Err(e) => Err(e),
    }
}

/// The raw event or error that a result of [`Event::into_raw`] holds, as
/// mathematical values.
pub open spec fn raw_result_view(result: Result<RawEvent, EventError>) -> Result<
    RawEventView,
    EventError,
> {
    match result {
        Ok(raw) => Ok(raw@),
        Err(e) => Err(e),
    }
}

/// Read an optional C string as a text.
fn option_text_from_raw(bytes: &Option<Vec<u8>>) -> (text: Option<String>)
    ensures
        option_text_view(text) == option_decode(crate::raw_event::option_bytes_view(*bytes)),
{
    match bytes {
        Some(b) => Some(text_from_raw(b.as_slice())),
        None => None,
    }
}

/// Write an optional text as the bytes of a C string.
fn option_text_into_raw(text: &Option<String>) -> (bytes: Result<Option<Vec<u8>>, EventError>)
    ensures
        bytes is Err <==> option_has_nul(option_text_view(*text)),
        bytes matches Ok(b) ==> crate::raw_event::option_bytes_view(b) == option_encode(
            option_text_view(*text),
        ),
{
    match text {
        Some(t) => {
            let b = text_into_raw(t.as_str())?;
            Ok(Some(b))
        },
        None => Ok(None),
    }
}

/// Read the tag directives of a raw *DOCUMENT-START* event.
fn tags_from_raw(raw: &Vec<RawTagDirective>) -> (tags: Vec<TagDirective>)
    ensures
        tag_directives_view(tags@) == tag_directives_of_raw(raw_tag_directives_view(raw@)),
{
    let mut tags: Vec<TagDirective> = Vec::new();
    let mut i: usize = 0;
    while i < raw.len()
        invariant
            i <= raw.len(),
            tags@.len() == i,
            forall|k: int|
                0 <= k < i ==> (#[trigger] tags@[k])@ == TagDirectiveView::of_raw(raw@[k]@),
        decreases raw.len() - i,
    {
        let handle = text_from_raw(raw[i].handle.as_slice());
        let prefix = text_from_raw(raw[i].prefix.as_slice());
        tags.push(TagDirective { handle, prefix });
        i += 1;
    }
    assert(tag_directives_view(tags@) =~= tag_directives_of_raw(raw_tag_directives_view(raw@)));
    tags
}

/// Write the tag directives of a *DOCUMENT-START* event.
fn tags_into_raw(tags: &Vec<TagDirective>) -> (raw: Result<Vec<RawTagDirective>, EventError>)
    ensures
        raw is Err <==> exists|i: int|
            0 <= i < tags@.len() && (#[trigger] tag_directives_view(tags@)[i]).has_nul(),
        raw matches Ok(r) ==> raw_tag_directives_view(r@) == tag_directives_raw(
            tag_directives_view(tags@),
        ),
{
    let mut raw: Vec<RawTagDirective> = Vec::new();
    let mut i: usize = 0;
    while i < tags.len()
        invariant
            i <= tags.len(),
            raw@.len() == i,
            forall|k: int| 0 <= k < i ==> !(#[trigger] tag_directives_view(tags@)[k]).has_nul(),
            forall|k: int| 0 <= k < i ==> (#[trigger] raw@[k])@ == tags@[k]@.raw(),
        decreases tags.len() - i,
    {
        let handle = match text_into_raw(tags[i].handle.as_str()) {
            Ok(b) => b,
            Err(e) => {
                assert(tag_directives_view(tags@)[i as int].has_nul());
                return Err(e);
            },
        };
        let prefix = match text_into_raw(tags[i].prefix.as_str()) {
            Ok(b) => b,
            Err(e) => {
                assert(tag_directives_view(tags@)[i as int].has_nul());
                return Err(e);
            },
        };
        raw.push(RawTagDirective { handle, prefix });
        assert(!tag_directives_view(tags@)[i as int].has_nul());
        i += 1;
    }
    assert(raw_tag_directives_view(raw@) =~= tag_directives_raw(tag_directives_view(tags@)));
    Ok(raw)
}

impl Event {
    /// Return the type of this event.
    pub fn type_(&self) -> (event_type: EventType)
        ensures
            event_type == self@.type_(),
    {
        match self {
            Event::StreamStart { .. } => EventType::StreamStart,
            Event::StreamEnd => EventType::StreamEnd,
            Event::DocumentStart { .. } => EventType::DocumentStart,
            Event::DocumentEnd { .. } => EventType::DocumentEnd,
            Event::Alias { .. } => EventType::Alias,
            Event::Scalar { .. } => EventType::Scalar,
            Event::SequenceStart { .. } => EventType::SequenceStart,
            Event::SequenceEnd => EventType::SequenceEnd,
            Event::MappingStart { .. } => EventType::MappingStart,
            Event::MappingEnd => EventType::MappingEnd,
        }
    }

    /// Make an event of the fields of a raw `yaml_event_t`. The conversion
    /// fails for an event of unknown type.
    pub fn from_raw(raw: RawEvent) -> (event: Result<Self, EventError>)
        ensures
            event_result_view(event) == EventView::of_raw(raw@),
    {
        match EventType::from_raw(raw.type_) {
            None => Err(EventError),
            Some(EventType::StreamStart) => Ok(
                Event::StreamStart { encoding: Encoding::from_raw(raw.encoding) },
            ),
            Some(EventType::StreamEnd) => Ok(Event::StreamEnd),
            Some(EventType::DocumentStart) => {
                let version = match raw.version_directive {
                    Some(v) => Some(VersionDirective::from_raw(v)),
                    None => None,
                };
                let tags = tags_from_raw(&raw.tag_directives);
                Ok(Event::DocumentStart { version, tags, implicit: raw.implicit != 0 })
            },
            Some(EventType::DocumentEnd) => Ok(Event::DocumentEnd { implicit: raw.implicit != 0 }),
            Some(EventType::Alias) => match &raw.anchor {
                Some(anchor) => Ok(Event::Alias { anchor: text_from_raw(anchor.as_slice()) }),
                None => Err(EventError),
            },
            Some(EventType::Scalar) => Ok(
                Event::Scalar {
                    anchor: option_text_from_raw(&raw.anchor),
                    tag: option_text_from_raw(&raw.tag),
                    value: text_from_raw(raw.value.as_slice()),
                    plain_implicit: raw.plain_implicit != 0,
                    quoted_implicit: raw.quoted_implicit != 0,
                    style: ScalarStyle::from_raw(raw.style),
                },
            ),
            Some(EventType::SequenceStart) => Ok(
                Event::SequenceStart {
                    anchor: option_text_from_raw(&raw.anchor),
                    tag: option_text_from_raw(&raw.tag),
                    implicit: raw.implicit != 0,
                    style: SequenceStyle::from_raw(raw.style),
                },
            ),
            Some(EventType::SequenceEnd) => Ok(Event::SequenceEnd),
            Some(EventType::MappingStart) => Ok(
                Event::MappingStart {
                    anchor: option_text_from_raw(&raw.anchor),
                    tag: option_text_from_raw(&raw.tag),
                    implicit: raw.implicit != 0,
                    style: MappingStyle::from_raw(raw.style),
                },
            ),
            Some(EventType::MappingEnd) => Ok(Event::MappingEnd),
        }
    }

    /// Return the fields of the raw `yaml_event_t` for this event. The
    /// conversion fails where a text of the event holds a NUL character.
    pub fn into_raw(self) -> (raw: Result<RawEvent, EventError>)
        ensures
            raw_result_view(raw) == self@.raw(),
    {
        match self {
            Event::StreamStart { encoding } => {
                let mut raw = RawEvent::new(sys::YAML_STREAM_START_EVENT);
                raw.encoding = Encoding::option_into_raw(encoding);
                Ok(raw)
            },
            Event::StreamEnd => Ok(RawEvent::new(sys::YAML_STREAM_END_EVENT)),
            Event::DocumentStart { version, tags, implicit } => {
                let mut raw = RawEvent::new(sys::YAML_DOCUMENT_START_EVENT);
                raw.version_directive = match version {
                    Some(v) => Some(v.into_raw()),
                    None => None,
                };
                raw.tag_directives = tags_into_raw(&tags)?;
                raw.implicit = flag_into_raw(implicit);
                Ok(raw)
            },
            Event::DocumentEnd { implicit } => {
                let mut raw = RawEvent::new(sys::YAML_DOCUMENT_END_EVENT);
                raw.implicit = flag_into_raw(implicit);
                Ok(raw)
            },
            Event::Alias { anchor } => {
                let mut raw = RawEvent::new(sys::YAML_ALIAS_EVENT);
                raw.anchor = Some(text_into_raw(anchor.as_str())?);
                Ok(raw)
            },
            Event::Scalar { anchor, tag, value, plain_implicit, quoted_implicit, style } => {
                let mut raw = RawEvent::new(sys::YAML_SCALAR_EVENT);
                raw.anchor = option_text_into_raw(&anchor)?;
                raw.tag = option_text_into_raw(&tag)?;
                raw.value = text_into_raw(value.as_str())?;
                raw.plain_implicit = flag_into_raw(plain_implicit);
                raw.quoted_implicit = flag_into_raw(quoted_implicit);
                raw.style = ScalarStyle::option_into_raw(style);
                Ok(raw)
            },
            Event::SequenceStart { anchor, tag, implicit, style } => {
                let mut raw = RawEvent::new(sys::YAML_SEQUENCE_START_EVENT);
                raw.anchor = option_text_into_raw(&anchor)?;
                raw.tag = option_text_into_raw(&tag)?;
                raw.implicit = flag_into_raw(implicit);
                raw.style = SequenceStyle::option_into_raw(style);
                Ok(raw)
            },
            Event::SequenceEnd => Ok(RawEvent::new(sys::YAML_SEQUENCE_END_EVENT)),
            Event::MappingStart { anchor, tag, implicit, style } => {
                let mut raw = RawEvent::new(sys::YAML_MAPPING_START_EVENT);
                raw.anchor = option_text_into_raw(&anchor)?;
                raw.tag = option_text_into_raw(&tag)?;
                raw.implicit = flag_into_raw(implicit);
                raw.style = MappingStyle::option_into_raw(style);
                Ok(raw)
            },
            Event::MappingEnd => Ok(RawEvent::new(sys::YAML_MAPPING_END_EVENT)),
        }
    }
}

} // verus!
