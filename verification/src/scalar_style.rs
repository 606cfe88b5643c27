use vstd::prelude::*;

use crate::sys;

verus! {

/// Scalar style.
#[derive(Copy, Clone, Debug, Eq, Hash, Ord, PartialEq, PartialOrd, Structural)]
pub enum ScalarStyle {
    /// Plain scalar style.
    Plain,
    /// Single-quoted scalar style.
    SingleQuoted,
    /// Double-quoted scalar style.
    DoubleQuoted,
    /// Literal scalar style.
    Literal,
    /// Folded scalar style.
    Folded,
}

impl ScalarStyle {
    /// The code that LibYAML uses for this value.
    pub open spec fn code(self) -> int {
        match self {
            Self::Plain => sys::YAML_PLAIN_SCALAR_STYLE as int,
            Self::SingleQuoted => sys::YAML_SINGLE_QUOTED_SCALAR_STYLE as int,
            Self::DoubleQuoted => sys::YAML_DOUBLE_QUOTED_SCALAR_STYLE as int,
            Self::Literal => sys::YAML_LITERAL_SCALAR_STYLE as int,
            Self::Folded => sys::YAML_FOLDED_SCALAR_STYLE as int,
        }
    }

    /// The code of an optional value, where `None` is `YAML_ANY_SCALAR_STYLE`.
    pub open spec fn option_code(value: Option<Self>) -> int {
        match value {
            Some(v) => v.code(),
            None => sys::YAML_ANY_SCALAR_STYLE as int,
        }
    }

    /// The value that a code stands for; `None` where it stands for none.
    pub open spec fn of_code(code: int) -> Option<Self> {
        if code == sys::YAML_PLAIN_SCALAR_STYLE {
            Some(Self::Plain)
        } else if code == sys::YAML_SINGLE_QUOTED_SCALAR_STYLE {
            Some(Self::SingleQuoted)
        } else if code == sys::YAML_DOUBLE_QUOTED_SCALAR_STYLE {
            Some(Self::DoubleQuoted)
        } else if code == sys::YAML_LITERAL_SCALAR_STYLE {
            Some(Self::Literal)
        } else if code == sys::YAML_FOLDED_SCALAR_STYLE {
            Some(Self::Folded)
        } else {
            None
        }
    }

    /// Convert from `yaml_scalar_style_t`; `YAML_ANY_SCALAR_STYLE` becomes `None`.
    pub fn from_raw(raw: libyaml_sys::yaml_scalar_style_t) -> (value: Option<Self>)
        ensures
            value == Self::of_code(raw as int),
    {
        if raw == sys::YAML_PLAIN_SCALAR_STYLE {
            Some(Self::Plain)
        } else if raw == sys::YAML_SINGLE_QUOTED_SCALAR_STYLE {
            Some(Self::SingleQuoted)
        } else if raw == sys::YAML_DOUBLE_QUOTED_SCALAR_STYLE {
            Some(Self::DoubleQuoted)
        } else if raw == sys::YAML_LITERAL_SCALAR_STYLE {
            Some(Self::Literal)
        } else if raw == sys::YAML_FOLDED_SCALAR_STYLE {
            Some(Self::Folded)
        } else {
            None
        }
    }

    /// Convert to `yaml_scalar_style_t`.
    pub fn into_raw(self) -> (raw: libyaml_sys::yaml_scalar_style_t)
        ensures
            raw == self.code(),
    {
        match self {
            Self::Plain => sys::YAML_PLAIN_SCALAR_STYLE,
            Self::SingleQuoted => sys::YAML_SINGLE_QUOTED_SCALAR_STYLE,
            Self::DoubleQuoted => sys::YAML_DOUBLE_QUOTED_SCALAR_STYLE,
            Self::Literal => sys::YAML_LITERAL_SCALAR_STYLE,
            Self::Folded => sys::YAML_FOLDED_SCALAR_STYLE,
        }
    }

    /// Convert to `yaml_scalar_style_t`; `None` becomes `YAML_ANY_SCALAR_STYLE`.
    pub fn option_into_raw(value: Option<Self>) -> (raw: libyaml_sys::yaml_scalar_style_t)
        ensures
            raw == Self::option_code(value),
    {
        match value {
            Some(v) => v.into_raw(),
            None => sys::YAML_ANY_SCALAR_STYLE,
        }
    }

    /// Converting a value to its code and back gives the value again, and
    /// `YAML_ANY_SCALAR_STYLE` comes back as `None`.
    pub proof fn lemma_code_round_trip(value: Option<Self>)
        ensures
            Self::of_code(Self::option_code(value)) == value,
    {
    }
}

} // verus!
