use vstd::prelude::*;

use crate::tag_directive::{raw_tag_directives_view, RawTagDirective, RawTagDirectiveView};
use crate::version_directive::RawVersionDirective;

verus! {

/// The fields of a `yaml_event_t`, as plain values.
///
/// A `yaml_event_t` is a type code and a union of the fields of each type of
/// event. Which of the fields below carry anything is decided by `type_`; the
/// others are zero, absent or empty. A C string is held as its bytes, without
/// the NUL that ends it, and a null pointer as `None`.
#[derive(Clone, Debug, Eq, Hash, PartialEq)]
pub struct RawEvent {
    /// The event type, one of the `YAML_*_EVENT` codes.
    pub type_: libyaml_sys::yaml_event_type_t,
    /// The encoding of a *STREAM-START* event.
    pub encoding: libyaml_sys::yaml_encoding_t,
    /// The version directive of a *DOCUMENT-START* event.
    pub version_directive: Option<RawVersionDirective>,
    /// The tag directives of a *DOCUMENT-START* event.
    pub tag_directives: Vec<RawTagDirective>,
    /// The implicit flag of a *DOCUMENT-START*, *DOCUMENT-END*,
    /// *SEQUENCE-START* or *MAPPING-START* event.
    pub implicit: i32,
    /// The anchor of an *ALIAS*, *SCALAR*, *SEQUENCE-START* or
    /// *MAPPING-START* event.
    pub anchor: Option<Vec<u8>>,
    /// The tag of a *SCALAR*, *SEQUENCE-START* or *MAPPING-START* event.
    pub tag: Option<Vec<u8>>,
    /// The value of a *SCALAR* event.
    pub value: Vec<u8>,
    /// The plain-implicit flag of a *SCALAR* event.
    pub plain_implicit: i32,
    /// The quoted-implicit flag of a *SCALAR* event.
    pub quoted_implicit: i32,
    /// The style of a *SCALAR*, *SEQUENCE-START* or *MAPPING-START* event.
    pub style: i32,
}

/// What a [`RawEvent`] holds, as mathematical values.
pub struct RawEventView {
    /// The event type.
    pub type_: int,
    /// The encoding.
    pub encoding: int,
    /// The version directive.
    pub version_directive: Option<RawVersionDirective>,
    /// The tag directives.
    pub tag_directives: Seq<RawTagDirectiveView>,
    /// The implicit flag.
    pub implicit: int,
    /// The anchor.
    pub anchor: Option<Seq<u8>>,
    /// The tag.
    pub tag: Option<Seq<u8>>,
    /// The value.
    pub value: Seq<u8>,
    /// The plain-implicit flag.
    pub plain_implicit: int,
    /// The quoted-implicit flag.
    pub quoted_implicit: int,
    /// The style.
    pub style: int,
}

/// The bytes of an optional C string.
pub open spec fn option_bytes_view(bytes: Option<Vec<u8>>) -> Option<Seq<u8>> {
    match bytes {
        Some(b) => Some(b@),
        None => None,
    }
}

impl View for RawEvent {
    type V = RawEventView;

    open spec fn view(&self) -> RawEventView {
        RawEventView {
            type_: self.type_ as int,
            encoding: self.encoding as int,
            version_directive: self.version_directive,
            tag_directives: raw_tag_directives_view(self.tag_directives@),
            implicit: self.implicit as int,
            anchor: option_bytes_view(self.anchor),
            tag: option_bytes_view(self.tag),
            value: self.value@,
            plain_implicit: self.plain_implicit as int,
            quoted_implicit: self.quoted_implicit as int,
            style: self.style as int,
        }
    }
}

impl RawEventView {
    /// The event of the given type whose fields are all zero, absent or
    /// empty.
    pub open spec fn blank(type_: int) -> RawEventView {
        RawEventView {
            type_,
            encoding: 0,
            version_directive: None,
            tag_directives: Seq::empty(),
            implicit: 0,
            anchor: None,
            tag: None,
            value: Seq::empty(),
            plain_implicit: 0,
            quoted_implicit: 0,
            style: 0,
        }
    }
}

impl RawEventView {
    /// The raw event without what LibYAML is free to choose where it is
    /// left the choice: the encoding and the style.
    pub open spec fn content(self) -> RawEventView {
        RawEventView { encoding: 0, style: 0, ..self }
    }
}

impl RawEvent {
    /// Make the event of the given type whose fields are all zero, absent or
    /// empty, as in a `yaml_event_t` that was zeroed.
    pub fn new(type_: libyaml_sys::yaml_event_type_t) -> (raw: RawEvent)
        ensures
            raw@ == RawEventView::blank(type_ as int),
    {
        let raw = RawEvent {
            type_,
            encoding: 0,
            version_directive: None,
            tag_directives: Vec::new(),
            implicit: 0,
            anchor: None,
            tag: None,
            value: Vec::new(),
            plain_implicit: 0,
            quoted_implicit: 0,
            style: 0,
        };
        assert(raw@.tag_directives =~= Seq::empty());
        raw
    }
}

} // verus!
