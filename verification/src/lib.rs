//! High-level bindings for the [LibYAML] library.
//!
//! [LibYAML]: https://github.com/yaml/libyaml
//!
//! LibYAML turns a stream of bytes into a stream of events and back. This
//! crate holds the part of a binding that can be reasoned about without the
//! C library at hand, with its behaviour stated in contracts and proved:
//!
//! * the events and the styles, encodings and directives that they carry;
//! * the conversion between an [`Event`] and the fields of a `yaml_event_t`,
//!   which are held as plain values in a [`RawEvent`];
//! * what a [`Parser`] and an [`Emitter`] make of the outcome of a call of
//!   LibYAML and of the reads and writes that LibYAML asked for while it
//!   ran;
//! * the fused iteration of a [`ParserIter`].
//!
//! The calls of LibYAML themselves, and the reads and writes, are made by
//! the code around this crate, which hands their outcomes in.

pub mod tag;

pub use self::emitter::{write_handler, Emitter, EmitterModel};
pub use self::emitter_builder::EmitterBuilder;
pub use self::emitter_error::EmitterError;
pub use self::encoding::Encoding;
pub use self::event::{Event, EventView};
pub use self::event_error::EventError;
pub use self::event_type::EventType;
pub use self::lib_version::lib_version;
pub use self::lib_version_string::lib_version_string;
pub use self::line_break::LineBreak;
pub use self::mapping_style::MappingStyle;
pub use self::parser::{read_handler, Parser, ParserModel};
pub use self::parser_builder::ParserBuilder;
pub use self::parser_error::ParserError;
pub use self::parser_iter::{ParserIter, ParserIterModel};
pub use self::raw_event::{RawEvent, RawEventView};
pub use self::scalar_style::ScalarStyle;
pub use self::sequence_style::SequenceStyle;
pub use self::setting::Setting;
pub use self::tag_directive::{RawTagDirective, TagDirective};
pub use self::version_directive::{RawVersionDirective, VersionDirective};

pub mod emitter;
pub mod emitter_builder;
pub mod emitter_error;
pub mod encoding;
pub mod event;
pub mod event_error;
pub mod event_type;
pub mod io_error;
pub mod lib_version;
pub mod lib_version_string;
pub mod line_break;
pub mod mapping_style;
pub mod parser;
pub mod parser_builder;
pub mod parser_error;
pub mod parser_iter;
pub mod raw_event;
pub mod scalar_style;
pub mod sequence_style;
pub mod setting;
pub mod sys;
pub mod tag_directive;
pub mod text;
pub mod version_directive;
