use vstd::prelude::*;

verus! {

/// One call of a configuration setter of LibYAML, with the argument that the
/// setter is given.
#[derive(Copy, Clone, Debug, Eq, Hash, PartialEq, Structural)]
pub enum Setting {
    /// `yaml_emitter_set_canonical`.
    Canonical(i32),
    /// `yaml_parser_set_encoding` or `yaml_emitter_set_encoding`.
    Encoding(libyaml_sys::yaml_encoding_t),
    /// `yaml_emitter_set_indent`.
    Indent(i32),
    /// `yaml_emitter_set_width`.
    Width(i32),
    /// `yaml_emitter_set_unicode`.
    Unicode(i32),
}

} // verus!
