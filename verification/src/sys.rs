//! Integer codes of the LibYAML C interface.
//!
//! LibYAML describes encodings, line breaks, styles and event kinds by C
//! enumerations. Their values are written out here, under the names that the
//! C header gives them, so that the conversions of this crate can be stated
//! and verified over plain integers.

use vstd::prelude::*;

verus! {

/// Let the engine choose the encoding.
pub const YAML_ANY_ENCODING: libyaml_sys::yaml_encoding_t = 0;

/// UTF-8.
pub const YAML_UTF8_ENCODING: libyaml_sys::yaml_encoding_t = 1;

/// UTF-16-LE with BOM.
pub const YAML_UTF16LE_ENCODING: libyaml_sys::yaml_encoding_t = 2;

/// UTF-16-BE with BOM.
pub const YAML_UTF16BE_ENCODING: libyaml_sys::yaml_encoding_t = 3;

/// Let the engine choose the line break.
pub const YAML_ANY_BREAK: libyaml_sys::yaml_break_t = 0;

/// CR line breaks (classic Mac).
pub const YAML_CR_BREAK: libyaml_sys::yaml_break_t = 1;

/// LN line breaks (UNIX).
pub const YAML_LN_BREAK: libyaml_sys::yaml_break_t = 2;

/// CR LN line breaks (DOS).
pub const YAML_CRLN_BREAK: libyaml_sys::yaml_break_t = 3;

/// Let the engine choose the scalar style.
pub const YAML_ANY_SCALAR_STYLE: libyaml_sys::yaml_scalar_style_t = 0;

/// Plain scalar style.
pub const YAML_PLAIN_SCALAR_STYLE: libyaml_sys::yaml_scalar_style_t = 1;

/// Single-quoted scalar style.
pub const YAML_SINGLE_QUOTED_SCALAR_STYLE: libyaml_sys::yaml_scalar_style_t = 2;

/// Double-quoted scalar style.
pub const YAML_DOUBLE_QUOTED_SCALAR_STYLE: libyaml_sys::yaml_scalar_style_t = 3;

/// Literal scalar style.
pub const YAML_LITERAL_SCALAR_STYLE: libyaml_sys::yaml_scalar_style_t = 4;

/// Folded scalar style.
pub const YAML_FOLDED_SCALAR_STYLE: libyaml_sys::yaml_scalar_style_t = 5;

/// Let the engine choose the sequence style.
pub const YAML_ANY_SEQUENCE_STYLE: libyaml_sys::yaml_sequence_style_t = 0;

/// Block sequence style.
pub const YAML_BLOCK_SEQUENCE_STYLE: libyaml_sys::yaml_sequence_style_t = 1;

/// Flow sequence style.
pub const YAML_FLOW_SEQUENCE_STYLE: libyaml_sys::yaml_sequence_style_t = 2;

/// Let the engine choose the mapping style.
pub const YAML_ANY_MAPPING_STYLE: libyaml_sys::yaml_mapping_style_t = 0;

/// Block mapping style.
pub const YAML_BLOCK_MAPPING_STYLE: libyaml_sys::yaml_mapping_style_t = 1;

/// Flow mapping style.
pub const YAML_FLOW_MAPPING_STYLE: libyaml_sys::yaml_mapping_style_t = 2;

/// An empty event.
pub const YAML_NO_EVENT: libyaml_sys::yaml_event_type_t = 0;

/// A *STREAM-START* event.
pub const YAML_STREAM_START_EVENT: libyaml_sys::yaml_event_type_t = 1;

/// A *STREAM-END* event.
pub const YAML_STREAM_END_EVENT: libyaml_sys::yaml_event_type_t = 2;

/// A *DOCUMENT-START* event.
pub const YAML_DOCUMENT_START_EVENT: libyaml_sys::yaml_event_type_t = 3;

/// A *DOCUMENT-END* event.
pub const YAML_DOCUMENT_END_EVENT: libyaml_sys::yaml_event_type_t = 4;

/// An *ALIAS* event.
pub const YAML_ALIAS_EVENT: libyaml_sys::yaml_event_type_t = 5;

/// A *SCALAR* event.
pub const YAML_SCALAR_EVENT: libyaml_sys::yaml_event_type_t = 6;

/// A *SEQUENCE-START* event.
pub const YAML_SEQUENCE_START_EVENT: libyaml_sys::yaml_event_type_t = 7;

/// A *SEQUENCE-END* event.
pub const YAML_SEQUENCE_END_EVENT: libyaml_sys::yaml_event_type_t = 8;

/// A *MAPPING-START* event.
pub const YAML_MAPPING_START_EVENT: libyaml_sys::yaml_event_type_t = 9;

/// A *MAPPING-END* event.
pub const YAML_MAPPING_END_EVENT: libyaml_sys::yaml_event_type_t = 10;

/// The C flag for a `bool`: 1 for `true` and 0 for `false`.
pub open spec fn flag_code(flag: bool) -> int {
    if flag {
        1
    } else {
        0
    }
}

/// Give the C flag for a `bool`.
pub fn flag_into_raw(flag: bool) -> (raw: i32)
    ensures
        raw == flag_code(flag),
{
    if flag {
        1
    } else {
        0
    }
}

} // verus!
