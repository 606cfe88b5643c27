use vstd::prelude::*;

use crate::emitter::{Emitter, EmitterModel};
use crate::emitter_error::EmitterError;
use crate::encoding::Encoding;
use crate::setting::Setting;
use crate::sys::{flag_code, flag_into_raw};

verus! {

/// Builder for emitters.
pub struct EmitterBuilder {
    emitter: Box<Emitter>,
}

impl View for EmitterBuilder {
    type V = EmitterModel;

    /// The state of the emitter that is being built.
    closed spec fn view(&self) -> EmitterModel {
        self.emitter@
    }
}

impl EmitterBuilder {
    /// Start building an emitter, given whether `yaml_emitter_initialize`
    /// succeeded.
    pub fn new(initialized: bool) -> (builder: Result<Self, EmitterError>)
        ensures
            match builder {
                Ok(b) => initialized && b@ == EmitterModel::initial(),
                Err(e) => !initialized && e == EmitterError::LibYamlError,
            },
    {
        match Emitter::new(initialized) {
            Ok(emitter) => Ok(Self { emitter }),
            Err(e) => Err(e),
        }
    }

    /// Finish building an emitter.
    pub fn finish(self) -> (emitter: Box<Emitter>)
        ensures
            emitter@ == self@,
    {
        self.emitter
    }

    /// Enable or disable canonical output.
    pub fn canonical(self, enable: bool) -> (builder: Self)
        ensures
            builder@ == self@.configure(Setting::Canonical(flag_code(enable) as i32)),
    {
        let mut builder = self;
        builder.emitter.configure(Setting::Canonical(flag_into_raw(enable)));
        builder
    }

    /// Set encoding.
    pub fn encoding(self, encoding: Encoding) -> (builder: Self)
        ensures
            builder@ == self@.configure(Setting::Encoding(encoding.code() as i32)),
    {
        let mut builder = self;
        builder.emitter.configure(Setting::Encoding(encoding.into_raw()));
        builder
    }

    /// Set indentation increment. The number is handed to LibYAML as a C
    /// `int`, cut down to its lowest 32 bits.
    pub fn indent(self, indent: usize) -> (builder: Self)
        ensures
            builder@ == self@.configure(Setting::Indent(indent as i32)),
    {
        let mut builder = self;
        builder.emitter.configure(Setting::Indent(#[verifier::truncate] (indent as i32)));
        builder
    }

    /// Set preferred line width. The number is handed to LibYAML as a C
    /// `int`, cut down to its lowest 32 bits.
    pub fn line_width(self, width: usize) -> (builder: Self)
        ensures
            builder@ == self@.configure(Setting::Width(width as i32)),
    {
        let mut builder = self;
        builder.emitter.configure(Setting::Width(#[verifier::truncate] (width as i32)));
        builder
    }

    /// Enable or disable unescaped non-ASCII characters in output.
    pub fn unicode(self, enable: bool) -> (builder: Self)
        ensures
            builder@ == self@.configure(Setting::Unicode(flag_code(enable) as i32)),
    {
        let mut builder = self;
        builder.emitter.configure(Setting::Unicode(flag_into_raw(enable)));
        builder
    }
}

} // verus!
