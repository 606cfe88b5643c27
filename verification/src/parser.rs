use vstd::prelude::*;

use crate::event::{Event, EventView};
use crate::parser_error::ParserError;
use crate::raw_event::{RawEvent, RawEventView};
use crate::setting::Setting;

verus! {

/// Parser.
///
/// A parser drives one LibYAML parser object, which pulls bytes from a byte
/// source through a read handler. The parser object and the byte source live
/// outside this type. What lives here is what the parser itself decides: how
/// the outcome of a read is reported to LibYAML and remembered, and what a
/// call of `yaml_parser_parse` means for the caller.
///
/// # Iteration
///
/// A parser can be turned into a [`ParserIter`], which is fused: it produces
/// `None` forever after the end of stream or after a first encountered error.
///
/// [`ParserIter`]: struct.ParserIter.html
pub struct Parser {
    settings: Vec<Setting>,
    reader_error: Option<std::io::Error>,
}

/// The state of a [`Parser`], as mathematical values.
pub struct ParserModel {
    /// The setter calls that configure the parser object, in their order.
    pub settings: Seq<Setting>,
    /// The failure of the most recent read, if that read failed and no call
    /// has reported the failure yet.
    pub reader_error: Option<std::io::Error>,
}

/// What a call of `yaml_parser_parse` hands back, as mathematical values:
/// the raw event, or `None` where the call failed.
pub open spec fn produced_view(produced: Option<RawEvent>) -> Option<RawEventView> {
    match produced {
        Some(raw) => Some(raw@),
        None => None,
    }
}

/// The event or error that a result of [`Parser::parse`] holds, as
/// mathematical values.
pub open spec fn parse_result_view(result: Result<Event, ParserError>) -> Result<
    EventView,
    ParserError,
> {
    match result {
        Ok(event) => Ok(event@),
        Err(e) => Err(e),
    }
}

/// True when the result is an I/O error.
pub open spec fn is_io_error(result: Result<EventView, ParserError>) -> bool {
    result matches Err(e) && e is IoError
}

/// True when the reads of the outcomes given all succeeded.
pub open spec fn all_reads_ok(outcomes: Seq<Result<usize, std::io::Error>>) -> bool {
    forall|i: int| 0 <= i < outcomes.len() ==> (#[trigger] outcomes[i]) is Ok
}

impl ParserModel {
    /// The state of a parser that was just made.
    pub open spec fn initial() -> ParserModel {
        ParserModel { settings: Seq::empty(), reader_error: None }
    }

    /// The state after one more setter call.
    pub open spec fn configure(self, setting: Setting) -> ParserModel {
        ParserModel { settings: self.settings.push(setting), ..self }
    }

    /// The state after one call of the read handler: a failure is
    /// remembered, and a success clears what was remembered.
    pub open spec fn read(self, outcome: Result<usize, std::io::Error>) -> ParserModel {
        ParserModel {
            reader_error: match outcome {
                Ok(_) => None,
                Err(e) => Some(e),
            },
            ..self
        }
    }

    /// The state after the calls of the read handler with the outcomes
    /// given, in their order.
    pub open spec fn reads(self, outcomes: Seq<Result<usize, std::io::Error>>) -> ParserModel
        decreases outcomes.len(),
    {
        if outcomes.len() == 0 {
            self
        } else {
            self.reads(outcomes.drop_last()).read(outcomes.last())
        }
    }

    /// The state after one call of [`Parser::parse`]. A call that fails
    /// takes the remembered failure away.
    pub open spec fn parse_state(self, produced: Option<RawEventView>) -> ParserModel {
        match produced {
            Some(_) => self,
            None => ParserModel { reader_error: None, ..self },
        }
    }

    /// What one call of [`Parser::parse`] returns. Where LibYAML produced a
    /// raw event, it is the event that the raw event is read as, and a
    /// LibYAML error where it is read as none. Where LibYAML failed, it is
    /// the remembered I/O failure if there is one, and a LibYAML error
    /// otherwise.
    pub open spec fn parse_result(self, produced: Option<RawEventView>) -> Result<
        EventView,
        ParserError,
    > {
        match produced {
            Some(raw) => match EventView::of_raw(raw) {
                Ok(event) => Ok(event),
                Err(_) => Err(ParserError::LibYamlError),
            },
            None => match self.reader_error {
                Some(e) => Err(ParserError::IoError(e)),
                None => Err(ParserError::LibYamlError),
            },
        }
    }

    /// A call of `parse` during which the last read failed, and which
    /// LibYAML therefore fails, returns the failure of that read as an I/O
    /// error, whatever the state before the call and however many reads
    /// succeeded before the failing one.
    pub proof fn lemma_read_failure_is_reported(
        self,
        outcomes: Seq<Result<usize, std::io::Error>>,
        e: std::io::Error,
    )
        requires
            outcomes.len() > 0,
            outcomes.last() == Err::<usize, std::io::Error>(e),
        ensures
            self.reads(outcomes).parse_result(None) == Err::<EventView, ParserError>(
                ParserError::IoError(e),
            ),
    {
    }

    /// Reads that all succeeded leave a state in which no failure is
    /// remembered as it is.
    pub proof fn lemma_reads_ok_keep_clear(self, outcomes: Seq<Result<usize, std::io::Error>>)
        requires
            self.reader_error is None,
            all_reads_ok(outcomes),
        ensures
            self.reads(outcomes) == self,
        decreases outcomes.len(),
    {
        if outcomes.len() > 0 {
            let before = outcomes.drop_last();
            assert forall|i: int| 0 <= i < before.len() implies (#[trigger] before[i]) is Ok by {
                assert(before[i] == outcomes[i]);
            }
            self.lemma_reads_ok_keep_clear(before);
            assert(outcomes.last() is Ok);
        }
    }

    /// A failure that one call of `parse` has reported does not explain a
    /// later call. After a call that failed, a call during which every read
    /// succeeds returns the event that LibYAML produced, or a LibYAML error:
    /// never an I/O error.
    pub proof fn lemma_stale_failure_is_isolated(
        self,
        outcomes: Seq<Result<usize, std::io::Error>>,
        produced: Option<RawEventView>,
    )
        requires
            all_reads_ok(outcomes),
        ensures
            !is_io_error(self.parse_state(None).reads(outcomes).parse_result(produced)),
            produced is None ==> self.parse_state(None).reads(outcomes).parse_result(produced)
                == Err::<EventView, ParserError>(ParserError::LibYamlError),
    {
        self.parse_state(None).lemma_reads_ok_keep_clear(outcomes);
    }

    /// A read that succeeds clears what was remembered. A call during which
    /// there are reads, all of which succeed, never returns an I/O error,
    /// whatever went before it.
    pub proof fn lemma_read_success_isolates(
        self,
        outcomes: Seq<Result<usize, std::io::Error>>,
        produced: Option<RawEventView>,
    )
        requires
            outcomes.len() > 0,
            all_reads_ok(outcomes),
        ensures
            !is_io_error(self.reads(outcomes).parse_result(produced)),
    {
        assert(outcomes.last() is Ok);
    }
}

impl View for Parser {
    type V = ParserModel;

    closed spec fn view(&self) -> ParserModel {
        ParserModel { settings: self.settings@, reader_error: self.reader_error }
    }
}

impl Parser {
    /// Create a parser with default configuration, given whether
    /// `yaml_parser_initialize` succeeded.
    ///
    /// If a custom configuration is needed, use [`ParserBuilder`] to build a
    /// `Parser` instance.
    ///
    /// [`ParserBuilder`]: struct.ParserBuilder.html
    pub fn new(initialized: bool) -> (parser: Result<Box<Self>, ParserError>)
        ensures
            match parser {
                Ok(p) => initialized && p@ == ParserModel::initial(),
                Err(e) => !initialized && e == ParserError::LibYamlError,
            },
    {
        if initialized {
            Ok(Box::new(Self { settings: Vec::new(), reader_error: None }))
        } else {
            Err(ParserError::LibYamlError)
        }
    }

    /// Parse an event, given what `yaml_parser_parse` handed back: the raw
    /// event, or `None` where it failed.
    pub fn parse(&mut self, produced: Option<RawEvent>) -> (event: Result<Event, ParserError>)
        ensures
            final(self)@ == old(self)@.parse_state(produced_view(produced)),
            parse_result_view(event) == old(self)@.parse_result(produced_view(produced)),
    {
        match produced {
            Some(raw) => match Event::from_raw(raw) {
                Ok(event) => Ok(event),
                Err(e) => Err(ParserError::from(e)),
            },
            None => match self.reader_error.take() {
                Some(e) => Err(ParserError::IoError(e)),
                None => Err(ParserError::LibYamlError),
            },
        }
    }

    /// The setter calls that configure the parser object, in their order.
    pub fn settings(&self) -> (settings: &Vec<Setting>)
        ensures
            settings@ == self@.settings,
    {
        &self.settings
    }

    /// Add a setter call to the configuration.
    pub(crate) fn configure(&mut self, setting: Setting)
        ensures
            final(self)@ == old(self)@.configure(setting),
    {
        self.settings.push(setting);
    }
}

/// The number of bytes that the read handler reports for the outcome of a
/// read into a buffer of `size` bytes: the number that the read gave, which
/// is never taken to be more than the buffer holds, and none where the read
/// failed.
pub open spec fn bytes_read(size: usize, outcome: Result<usize, std::io::Error>) -> usize {
    match outcome {
        Ok(n) => if n <= size {
            n
        } else {
            size
        },
        Err(_) => 0,
    }
}

/// The read handler of a parser, given the size of the buffer that LibYAML
/// asked to fill and the outcome of the read from the byte source into that
/// buffer. It reports the number of bytes read through `size_read` and
/// returns 1, or reports no bytes and returns 0 where the read failed. A
/// short read is no failure. The failure is remembered in the parser, and a
/// success clears what was remembered.
pub fn read_handler(
    parser: &mut Parser,
    size: usize,
    outcome: Result<usize, std::io::Error>,
    size_read: &mut usize,
) -> (status: i32)
    ensures
        final(parser)@ == old(parser)@.read(outcome),
        *final(size_read) == bytes_read(size, outcome),
        *final(size_read) <= size,
        status == match outcome {
            Ok(_) => 1i32,
            Err(_) => 0i32,
        },
{
    match outcome {
        Ok(n) => {
            *size_read = if n <= size {
                n
            } else {
                size
            };
            parser.reader_error = None;
            1
        },
        Err(e) => {
            *size_read = 0;
            parser.reader_error = Some(e);
            0
        },
    }
}

} // verus!
