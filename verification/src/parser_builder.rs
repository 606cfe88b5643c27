use vstd::prelude::*;

use crate::encoding::Encoding;
use crate::parser::{Parser, ParserModel};
use crate::parser_error::ParserError;
use crate::setting::Setting;

verus! {

/// Builder for parsers.
pub struct ParserBuilder {
    parser: Box<Parser>,
}

impl View for ParserBuilder {
    type V = ParserModel;

    /// The state of the parser that is being built.
    closed spec fn view(&self) -> ParserModel {
        self.parser@
    }
}

impl ParserBuilder {
    /// Start building a parser, given whether `yaml_parser_initialize`
    /// succeeded.
    pub fn new(initialized: bool) -> (builder: Result<Self, ParserError>)
        ensures
            match builder {
                Ok(b) => initialized && b@ == ParserModel::initial(),
                Err(e) => !initialized && e == ParserError::LibYamlError,
            },
    {
        match Parser::new(initialized) {
            Ok(parser) => Ok(Self { parser }),
            Err(e) => Err(e),
        }
    }

    /// Finish building a parser.
    pub fn finish(self) -> (parser: Box<Parser>)
        ensures
            parser@ == self@,
    {
        self.parser
    }

    /// Set encoding.
    pub fn encoding(self, encoding: Encoding) -> (builder: Self)
        ensures
            builder@ == self@.configure(Setting::Encoding(encoding.code() as i32)),
    {
        let mut builder = self;
        builder.parser.configure(Setting::Encoding(encoding.into_raw()));
        builder
    }
}

} // verus!
