use vstd::prelude::*;

use crate::sys;

verus! {

/// Event type.
#[derive(Copy, Clone, Debug, Eq, Hash, Ord, PartialEq, PartialOrd, Structural)]
pub enum EventType {
    /// *STREAM-START* event.
    StreamStart,
    /// *STREAM-END* event.
    StreamEnd,
    /// *DOCUMENT-START* event.
    DocumentStart,
    /// *DOCUMENT-END* event.
    DocumentEnd,
    /// *ALIAS* event.
    Alias,
    /// *SCALAR* event.
    Scalar,
    /// *SEQUENCE-START* event.
    SequenceStart,
    /// *SEQUENCE-END* event.
    SequenceEnd,
    /// *MAPPING-START* event.
    MappingStart,
    /// *MAPPING-END* event.
    MappingEnd,
}

impl EventType {
    /// The code that LibYAML uses for this event type.
    pub open spec fn code(self) -> int {
        match self {
            Self::StreamStart => sys::YAML_STREAM_START_EVENT as int,
            Self::StreamEnd => sys::YAML_STREAM_END_EVENT as int,
            Self::DocumentStart => sys::YAML_DOCUMENT_START_EVENT as int,
            Self::DocumentEnd => sys::YAML_DOCUMENT_END_EVENT as int,
            Self::Alias => sys::YAML_ALIAS_EVENT as int,
            Self::Scalar => sys::YAML_SCALAR_EVENT as int,
            Self::SequenceStart => sys::YAML_SEQUENCE_START_EVENT as int,
            Self::SequenceEnd => sys::YAML_SEQUENCE_END_EVENT as int,
            Self::MappingStart => sys::YAML_MAPPING_START_EVENT as int,
            Self::MappingEnd => sys::YAML_MAPPING_END_EVENT as int,
        }
    }

    /// The event type that a code stands for; `None` for `YAML_NO_EVENT` and
    /// for every code that LibYAML does not define.
    pub open spec fn of_code(code: int) -> Option<Self> {
        if code == sys::YAML_STREAM_START_EVENT {
            Some(Self::StreamStart)
        } else if code == sys::YAML_STREAM_END_EVENT {
            Some(Self::StreamEnd)
        } else if code == sys::YAML_DOCUMENT_START_EVENT {
            Some(Self::DocumentStart)
        } else if code == sys::YAML_DOCUMENT_END_EVENT {
            Some(Self::DocumentEnd)
        } else if code == sys::YAML_ALIAS_EVENT {
            Some(Self::Alias)
        } else if code == sys::YAML_SCALAR_EVENT {
            Some(Self::Scalar)
        } else if code == sys::YAML_SEQUENCE_START_EVENT {
            Some(Self::SequenceStart)
        } else if code == sys::YAML_SEQUENCE_END_EVENT {
            Some(Self::SequenceEnd)
        } else if code == sys::YAML_MAPPING_START_EVENT {
            Some(Self::MappingStart)
        } else if code == sys::YAML_MAPPING_END_EVENT {
            Some(Self::MappingEnd)
        } else {
            None
        }
    }

    /// Wrap a raw `yaml_event_type_t`, returning `None` for unknown values.
    pub fn from_raw(raw: libyaml_sys::yaml_event_type_t) -> (value: Option<Self>)
        ensures
            value == Self::of_code(raw as int),
    {
        if raw == sys::YAML_STREAM_START_EVENT {
            Some(Self::StreamStart)
        } else if raw == sys::YAML_STREAM_END_EVENT {
            Some(Self::StreamEnd)
        } else if raw == sys::YAML_DOCUMENT_START_EVENT {
            Some(Self::DocumentStart)
        } else if raw == sys::YAML_DOCUMENT_END_EVENT {
            Some(Self::DocumentEnd)
        } else if raw == sys::YAML_ALIAS_EVENT {
            Some(Self::Alias)
        } else if raw == sys::YAML_SCALAR_EVENT {
            Some(Self::Scalar)
        } else if raw == sys::YAML_SEQUENCE_START_EVENT {
            Some(Self::SequenceStart)
        } else if raw == sys::YAML_SEQUENCE_END_EVENT {
            Some(Self::SequenceEnd)
        } else if raw == sys::YAML_MAPPING_START_EVENT {
            Some(Self::MappingStart)
        } else if raw == sys::YAML_MAPPING_END_EVENT {
            Some(Self::MappingEnd)
        } else {
            None
        }
    }

    /// Converting an event type to its code and back gives it again.
    pub proof fn lemma_code_round_trip(value: Self)
        ensures
            Self::of_code(value.code()) == Some(value),
    {
    }
}

} // verus!
