use vstd::prelude::*;

verus! {

/// Document tag directive.
#[derive(Clone, Debug, Eq, Hash, PartialEq)]
pub struct TagDirective {
    /// Handle.
    pub handle: String,
    /// Prefix.
    pub prefix: String,
}

/// What a [`TagDirective`] holds, as mathematical values.
pub struct TagDirectiveView {
    /// Handle.
    pub handle: Seq<char>,
    /// Prefix.
    pub prefix: Seq<char>,
}

impl View for TagDirective {
    type V = TagDirectiveView;

    open spec fn view(&self) -> TagDirectiveView {
        TagDirectiveView { handle: self.handle@, prefix: self.prefix@ }
    }
}

/// What a list of tag directives holds, as mathematical values.
pub open spec fn tag_directives_view(tags: Seq<TagDirective>) -> Seq<TagDirectiveView> {
    tags.map_values(|t: TagDirective| t@)
}

/// The fields of a `yaml_tag_directive_t`: two C strings, each without the
/// NUL that ends it.
#[derive(Clone, Debug, Eq, Hash, PartialEq)]
pub struct RawTagDirective {
    /// Handle.
    pub handle: Vec<u8>,
    /// Prefix.
    pub prefix: Vec<u8>,
}

/// What a [`RawTagDirective`] holds, as mathematical values.
pub struct RawTagDirectiveView {
    /// Handle.
    pub handle: Seq<u8>,
    /// Prefix.
    pub prefix: Seq<u8>,
}

impl View for RawTagDirective {
    type V = RawTagDirectiveView;

    open spec fn view(&self) -> RawTagDirectiveView {
        RawTagDirectiveView { handle: self.handle@, prefix: self.prefix@ }
    }
}

/// What a list of raw tag directives holds, as mathematical values.
pub open spec fn raw_tag_directives_view(tags: Seq<RawTagDirective>) -> Seq<RawTagDirectiveView> {
    tags.map_values(|t: RawTagDirective| t@)
}

} // verus!
