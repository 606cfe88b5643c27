use vstd::prelude::*;

use crate::sys;

verus! {

/// Stream encoding.
#[derive(Copy, Clone, Debug, Eq, Hash, Ord, PartialEq, PartialOrd, Structural)]
pub enum Encoding {
    /// UTF-8.
    Utf8,
    /// UTF-16-LE with BOM.
    Utf16Le,
    /// UTF-16-BE with BOM.
    Utf16Be,
}

impl Encoding {
    /// The code that LibYAML uses for this value.
    pub open spec fn code(self) -> int {
        match self {
            Self::Utf8 => sys::YAML_UTF8_ENCODING as int,
            Self::Utf16Le => sys::YAML_UTF16LE_ENCODING as int,
            Self::Utf16Be => sys::YAML_UTF16BE_ENCODING as int,
        }
    }

    /// The code of an optional value, where `None` is `YAML_ANY_ENCODING`.
    pub open spec fn option_code(value: Option<Self>) -> int {
        match value {
            Some(v) => v.code(),
            None => sys::YAML_ANY_ENCODING as int,
        }
    }

    /// The value that a code stands for; `None` where it stands for none.
    pub open spec fn of_code(code: int) -> Option<Self> {
        if code == sys::YAML_UTF8_ENCODING {
            Some(Self::Utf8)
        } else if code == sys::YAML_UTF16LE_ENCODING {
            Some(Self::Utf16Le)
        } else if code == sys::YAML_UTF16BE_ENCODING {
            Some(Self::Utf16Be)
        } else {
            None
        }
    }

    /// Convert from `yaml_encoding_t`; `YAML_ANY_ENCODING` becomes `None`.
    pub fn from_raw(raw: libyaml_sys::yaml_encoding_t) -> (value: Option<Self>)
        ensures
            value == Self::of_code(raw as int),
    {
        if raw == sys::YAML_UTF8_ENCODING {
            Some(Self::Utf8)
        } else if raw == sys::YAML_UTF16LE_ENCODING {
            Some(Self::Utf16Le)
        } else if raw == sys::YAML_UTF16BE_ENCODING {
            Some(Self::Utf16Be)
        } else {
            None
        }
    }

    /// Convert to `yaml_encoding_t`.
    pub fn into_raw(self) -> (raw: libyaml_sys::yaml_encoding_t)
        ensures
            raw == self.code(),
    {
        match self {
            Self::Utf8 => sys::YAML_UTF8_ENCODING,
            Self::Utf16Le => sys::YAML_UTF16LE_ENCODING,
            Self::Utf16Be => sys::YAML_UTF16BE_ENCODING,
        }
    }

    /// Convert to `yaml_encoding_t`; `None` becomes `YAML_ANY_ENCODING`.
    pub fn option_into_raw(value: Option<Self>) -> (raw: libyaml_sys::yaml_encoding_t)
        ensures
            raw == Self::option_code(value),
    {
        match value {
            Some(v) => v.into_raw(),
            None => sys::YAML_ANY_ENCODING,
        }
    }

    /// Converting a value to its code and back gives the value again, and
    /// `YAML_ANY_ENCODING` comes back as `None`.
    pub proof fn lemma_code_round_trip(value: Option<Self>)
        ensures
            Self::of_code(Self::option_code(value)) == value,
    {
    }
}

} // verus!
