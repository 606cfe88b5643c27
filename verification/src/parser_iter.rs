use vstd::prelude::*;

use crate::event::{Event, EventView};
use crate::parser::{parse_result_view, produced_view, Parser, ParserModel};
use crate::parser_error::ParserError;
use crate::raw_event::{RawEvent, RawEventView};

verus! {

/// Iterator adapter for [`Parser`].
///
/// The adapter is fused: once it has given the end of the stream or an
/// error, it gives `None` and leaves its parser alone.
///
/// [`Parser`]: struct.Parser.html
pub struct ParserIter {
    parser: Box<Parser>,
    fuse_burnt: bool,
}

/// The state of a [`ParserIter`], as mathematical values.
pub struct ParserIterModel {
    /// The state of the parser that the iterator owns.
    pub parser: ParserModel,
    /// True once the iterator has given the end of the stream or an error.
    pub fuse_burnt: bool,
}

/// An item of a [`ParserIter`], as mathematical values.
pub open spec fn item_view(item: Option<Result<Event, ParserError>>) -> Option<
    Result<EventView, ParserError>,
> {
    match item {
        Some(result) => Some(parse_result_view(result)),
        None => None,
    }
}

/// True when the result ends the iteration: it is the end of the stream or
/// an error.
pub open spec fn is_terminal(result: Result<EventView, ParserError>) -> bool {
    result is Err || result == Ok::<EventView, ParserError>(EventView::StreamEnd)
}

impl ParserIterModel {
    /// The state after one call of [`ParserIter::next`]. A burnt iterator
    /// stays as it is. Another one lets its parser parse, and burns where
    /// what was parsed ends the iteration.
    pub open spec fn next_state(self, produced: Option<RawEventView>) -> ParserIterModel {
        if self.fuse_burnt {
            self
        } else {
            ParserIterModel {
                parser: self.parser.parse_state(produced),
                fuse_burnt: is_terminal(self.parser.parse_result(produced)),
            }
        }
    }

    /// What one call of [`ParserIter::next`] returns: `None` from a burnt
    /// iterator, and what its parser parsed from another one.
    pub open spec fn next_item(self, produced: Option<RawEventView>) -> Option<
        Result<EventView, ParserError>,
    > {
        if self.fuse_burnt {
            None
        } else {
            Some(self.parser.parse_result(produced))
        }
    }

    /// The state after the calls of [`ParserIter::next`] with what LibYAML
    /// handed back for each, in their order.
    pub open spec fn next_states(self, produced: Seq<Option<RawEventView>>) -> ParserIterModel
        decreases produced.len(),
    {
        if produced.len() == 0 {
            self
        } else {
            self.next_states(produced.drop_last()).next_state(produced.last())
        }
    }

    /// An iterator gives `None` only when it is burnt, and it is burnt only
    /// after it has given the end of the stream or an error.
    pub proof fn lemma_burns_on_terminal(self, produced: Option<RawEventView>)
        requires
            !self.fuse_burnt,
        ensures
            self.next_item(produced) is Some,
            self.next_state(produced).fuse_burnt == is_terminal(self.next_item(produced)->Some_0),
    {
    }

    /// A burnt iterator stays burnt and leaves its parser as it is, whatever
    /// calls follow.
    pub proof fn lemma_burnt_stays(self, produced: Seq<Option<RawEventView>>)
        requires
            self.fuse_burnt,
        ensures
            self.next_states(produced) == self,
        decreases produced.len(),
    {
        if produced.len() > 0 {
            self.lemma_burnt_stays(produced.drop_last());
        }
    }

    /// After an iterator has given the end of the stream or an error, every
    /// later call gives `None`, whatever LibYAML would hand back for it and
    /// however many calls went between.
    pub proof fn lemma_fused(
        self,
        terminal: Option<RawEventView>,
        between: Seq<Option<RawEventView>>,
        later: Option<RawEventView>,
    )
        requires
            self.next_item(terminal) matches Some(result) && is_terminal(result),
        ensures
            self.next_state(terminal).next_states(between).next_item(later) is None,
            self.next_state(terminal).next_states(between).next_state(later).parser
                == self.next_state(terminal).parser,
    {
        self.next_state(terminal).lemma_burnt_stays(between);
    }
}

impl View for ParserIter {
    type V = ParserIterModel;

    closed spec fn view(&self) -> ParserIterModel {
        ParserIterModel { parser: self.parser@, fuse_burnt: self.fuse_burnt }
    }
}

impl ParserIter {
    /// Convert a parser into an iterator.
    pub fn new(parser: Box<Parser>) -> (iter: Self)
        ensures
            iter@ == (ParserIterModel { parser: parser@, fuse_burnt: false }),
    {
        Self { parser, fuse_burnt: false }
    }

    /// True once the iterator has given the end of the stream or an error.
    /// LibYAML must not be asked to parse for a burnt iterator.
    pub fn fuse_burnt(&self) -> (burnt: bool)
        ensures
            burnt == self@.fuse_burnt,
    {
        self.fuse_burnt
    }

    /// The parser of the iterator, for its read handler.
    pub fn parser_mut(&mut self) -> (parser: &mut Parser)
        ensures
            parser@ == old(self)@.parser,
            final(self)@ == (ParserIterModel { parser: final(parser)@, ..old(self)@ }),
    {
        &mut *self.parser
    }

    /// Advance the iterator, given what `yaml_parser_parse` handed back: the
    /// raw event, or `None` where it failed. For a burnt iterator, for which
    /// LibYAML is not asked, `produced` is not looked at.
    pub fn next(&mut self, produced: Option<RawEvent>) -> (item: Option<Result<Event, ParserError>>)
        ensures
            final(self)@ == old(self)@.next_state(produced_view(produced)),
            item_view(item) == old(self)@.next_item(produced_view(produced)),
    {
        if self.fuse_burnt {
            None
        } else {
            match self.parser.parse(produced) {
                Ok(Event::StreamEnd) => {
                    self.fuse_burnt = true;
                    Some(Ok(Event::StreamEnd))
                },
                Err(e) => {
                    self.fuse_burnt = true;
                    Some(Err(e))
                },
                ret => Some(ret),
            }
        }
    }
}

} // verus!
