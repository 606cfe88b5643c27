use vstd::prelude::*;

use crate::emitter_error::EmitterError;
use crate::event_error::EventError;
use crate::setting::Setting;

verus! {

/// Emitter.
///
/// An emitter drives one LibYAML emitter object, which pushes bytes to a
/// byte sink through a write handler. The emitter object and the byte sink
/// live outside this type. What lives here is what the emitter itself
/// decides: how the outcome of a write is reported to LibYAML and
/// remembered, and what a call of `yaml_emitter_emit` or
/// `yaml_emitter_flush` means for the caller.
pub struct Emitter {
    settings: Vec<Setting>,
    writer_error: Option<std::io::Error>,
}

/// The state of an [`Emitter`], as mathematical values.
pub struct EmitterModel {
    /// The setter calls that configure the emitter object, in their order.
    pub settings: Seq<Setting>,
    /// The failure of the most recent write, if that write failed and no
    /// call has reported the failure yet.
    pub writer_error: Option<std::io::Error>,
}

/// True when the writes of the outcomes given all succeeded.
pub open spec fn all_writes_ok(outcomes: Seq<Result<(), std::io::Error>>) -> bool {
    forall|i: int| 0 <= i < outcomes.len() ==> (#[trigger] outcomes[i]) is Ok
}

impl EmitterModel {
    /// The state of an emitter that was just made.
    pub open spec fn initial() -> EmitterModel {
        EmitterModel { settings: Seq::empty(), writer_error: None }
    }

    /// The state after one more setter call.
    pub open spec fn configure(self, setting: Setting) -> EmitterModel {
        EmitterModel { settings: self.settings.push(setting), ..self }
    }

    /// The state after one call of the write handler: a failure is
    /// remembered, and a success clears what was remembered.
    pub open spec fn write(self, outcome: Result<(), std::io::Error>) -> EmitterModel {
        EmitterModel {
            writer_error: match outcome {
                Ok(_) => None,
                Err(e) => Some(e),
            },
            ..self
        }
    }

    /// The state after the calls of the write handler with the outcomes
    /// given, in their order.
    pub open spec fn writes(self, outcomes: Seq<Result<(), std::io::Error>>) -> EmitterModel
        decreases outcomes.len(),
    {
        if outcomes.len() == 0 {
            self
        } else {
            self.writes(outcomes.drop_last()).write(outcomes.last())
        }
    }

    /// The state after a call of LibYAML, given whether it succeeded. A
    /// call that fails takes the remembered failure away.
    pub open spec fn call_state(self, ok: bool) -> EmitterModel {
        if ok {
            self
        } else {
            EmitterModel { writer_error: None, ..self }
        }
    }

    /// What is returned for a call of LibYAML, given whether it succeeded.
    /// Where it failed, it is the remembered I/O failure if there is one,
    /// and a LibYAML error otherwise.
    pub open spec fn call_result(self, ok: bool) -> Result<(), EmitterError> {
        if ok {
            Ok(())
        } else {
            match self.writer_error {
                Some(e) => Err(EmitterError::IoError(e)),
                None => Err(EmitterError::LibYamlError),
            }
        }
    }

    /// The state after one call of [`Emitter::emit`]. Where the event could
    /// not be written as a raw event, LibYAML was not asked and nothing
    /// changes.
    pub open spec fn emit_state(self, outcome: Result<bool, EventError>) -> EmitterModel {
        match outcome {
            Ok(accepted) => self.call_state(accepted),
            Err(_) => self,
        }
    }

    /// What one call of [`Emitter::emit`] returns. An event that could not
    /// be written as a raw event gives a LibYAML error.
    pub open spec fn emit_result(self, outcome: Result<bool, EventError>) -> Result<
        (),
        EmitterError,
    > {
        match outcome {
            Ok(accepted) => self.call_result(accepted),
            Err(_) => Err(EmitterError::LibYamlError),
        }
    }

    /// A call of LibYAML during which the last write failed, and which
    /// LibYAML therefore fails, returns the failure of that write as an I/O
    /// error, whatever the state before the call and however many writes
    /// succeeded before the failing one.
    pub proof fn lemma_write_failure_is_reported(
        self,
        outcomes: Seq<Result<(), std::io::Error>>,
        e: std::io::Error,
    )
        requires
            outcomes.len() > 0,
            outcomes.last() == Err::<(), std::io::Error>(e),
        ensures
            self.writes(outcomes).call_result(false) == Err::<(), EmitterError>(
                EmitterError::IoError(e),
            ),
    {
    }

    /// Writes that all succeeded leave a state in which no failure is
    /// remembered as it is.
    pub proof fn lemma_writes_ok_keep_clear(self, outcomes: Seq<Result<(), std::io::Error>>)
        requires
            self.writer_error is None,
            all_writes_ok(outcomes),
        ensures
            self.writes(outcomes) == self,
        decreases outcomes.len(),
    {
        if outcomes.len() > 0 {
            let before = outcomes.drop_last();
            assert forall|i: int| 0 <= i < before.len() implies (#[trigger] before[i]) is Ok by {
                assert(before[i] == outcomes[i]);
            }
            self.lemma_writes_ok_keep_clear(before);
            assert(outcomes.last() is Ok);
        }
    }

    /// A failure that one call has reported does not explain a later call.
    /// After a call of LibYAML that failed, a call during which every write
    /// succeeds returns success where LibYAML succeeds and a LibYAML error
    /// where it fails: never an I/O error.
    pub proof fn lemma_stale_failure_is_isolated(
        self,
        outcomes: Seq<Result<(), std::io::Error>>,
        ok: bool,
    )
        requires
            all_writes_ok(outcomes),
        ensures
            self.call_state(false).writes(outcomes).call_result(ok) == if ok {
                Ok::<(), EmitterError>(())
            } else {
                Err::<(), EmitterError>(EmitterError::LibYamlError)
            },
    {
        self.call_state(false).lemma_writes_ok_keep_clear(outcomes);
    }

    /// A write that succeeds clears what was remembered. A call during
    /// which there are writes, all of which succeed, never returns an I/O
    /// error, whatever went before it.
    pub proof fn lemma_write_success_isolates(
        self,
        outcomes: Seq<Result<(), std::io::Error>>,
        ok: bool,
    )
        requires
            outcomes.len() > 0,
            all_writes_ok(outcomes),
        ensures
            self.writes(outcomes).call_result(ok) == if ok {
                Ok::<(), EmitterError>(())
            } else {
                Err::<(), EmitterError>(EmitterError::LibYamlError)
            },
    {
        assert(outcomes.last() is Ok);
    }
}

impl View for Emitter {
    type V = EmitterModel;

    closed spec fn view(&self) -> EmitterModel {
        EmitterModel { settings: self.settings@, writer_error: self.writer_error }
    }
}

impl Emitter {
    /// Create an emitter with default configuration, given whether
    /// `yaml_emitter_initialize` succeeded.
    ///
    /// If a custom configuration is needed, use [`EmitterBuilder`] to build an
    /// `Emitter` instance.
    ///
    /// [`EmitterBuilder`]: struct.EmitterBuilder.html
    pub fn new(initialized: bool) -> (emitter: Result<Box<Self>, EmitterError>)
        ensures
            match emitter {
                Ok(e) => initialized && e@ == EmitterModel::initial(),
                Err(e) => !initialized && e == EmitterError::LibYamlError,
            },
    {
        if initialized {
            Ok(Box::new(Self { settings: Vec::new(), writer_error: None }))
        } else {
            Err(EmitterError::LibYamlError)
        }
    }

    /// Conclude a call of LibYAML, given whether it succeeded.
    fn conclude(&mut self, ok: bool) -> (result: Result<(), EmitterError>)
        ensures
            final(self)@ == old(self)@.call_state(ok),
            result == old(self)@.call_result(ok),
    {
        if ok {
            Ok(())
        } else {
            match self.writer_error.take() {
                Some(e) => Err(EmitterError::IoError(e)),
                None => Err(EmitterError::LibYamlError),
            }
        }
    }

    /// Emit an event, given how its emission went: an error where the event
    /// could not be written as a raw event, and else whether
    /// `yaml_emitter_emit` succeeded on the raw event.
    pub fn emit(&mut self, outcome: Result<bool, EventError>) -> (result: Result<(), EmitterError>)
        ensures
            final(self)@ == old(self)@.emit_state(outcome),
            result == old(self)@.emit_result(outcome),
    {
        match outcome {
            Ok(accepted) => self.conclude(accepted),
            Err(e) => Err(EmitterError::from(e)),
        }
    }

    /// Flush the emitter buffer to writer, given whether
    /// `yaml_emitter_flush` succeeded.
    pub fn flush(&mut self, flushed: bool) -> (result: Result<(), EmitterError>)
        ensures
            final(self)@ == old(self)@.call_state(flushed),
            result == old(self)@.call_result(flushed),
    {
        self.conclude(flushed)
    }

    /// The setter calls that configure the emitter object, in their order.
    pub fn settings(&self) -> (settings: &Vec<Setting>)
        ensures
            settings@ == self@.settings,
    {
        &self.settings
    }

    /// Add a setter call to the configuration.
    pub(crate) fn configure(&mut self, setting: Setting)
        ensures
            final(self)@ == old(self)@.configure(setting),
    {
        self.settings.push(setting);
    }
}

/// The write handler of an emitter, given the outcome of writing the whole
/// buffer to the byte sink. It returns 1, or 0 where the write failed. The
/// failure is remembered in the emitter, and a success clears what was
/// remembered.
pub fn write_handler(emitter: &mut Emitter, outcome: Result<(), std::io::Error>) -> (status: i32)
    ensures
        final(emitter)@ == old(emitter)@.write(outcome),
        status == match outcome {
            Ok(_) => 1i32,
            Err(_) => 0i32,
        },
{
    emitter.writer_error = match outcome {
        Ok(_) => None,
        Err(e) => Some(e),
    };
    if emitter.writer_error.is_none() {
        1
    } else {
        0
    }
}

} // verus!
