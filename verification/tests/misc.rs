use std::io;

use libyaml::tag;
use libyaml::{
    lib_version, lib_version_string, EmitterError, EventError, ParserError, RawVersionDirective,
    VersionDirective,
};

#[test]
fn version_directive_from_raw() {
    let version = VersionDirective::from_raw(RawVersionDirective { major: 1, minor: 2 });
    assert_eq!(version, VersionDirective(1, 2));
    let version = VersionDirective::from_raw(RawVersionDirective { major: 255, minor: 0 });
    assert_eq!(version, VersionDirective(255, 0));
}

#[test]
fn version_directive_from_raw_keeps_the_low_byte() {
    let version = VersionDirective::from_raw(RawVersionDirective { major: 256, minor: 257 });
    assert_eq!(version, VersionDirective(0, 1));
    let version = VersionDirective::from_raw(RawVersionDirective { major: -1, minor: i32::MIN });
    assert_eq!(version, VersionDirective(255, 0));
}

#[test]
fn version_directive_into_raw() {
    assert_eq!(VersionDirective(1, 1).into_raw(), RawVersionDirective { major: 1, minor: 1 });
    assert_eq!(VersionDirective(0, 255).into_raw(), RawVersionDirective { major: 0, minor: 255 });
    let version = VersionDirective(200, 7);
    assert_eq!(VersionDirective::from_raw(version.into_raw()), version);
}

#[test]
fn lib_version_widens() {
    assert_eq!(lib_version(0, 2, 5), (0, 2, 5));
    assert_eq!(lib_version(i32::MAX, 0, 1), (2147483647, 0, 1));
    assert_eq!(lib_version(-1, -2, i32::MIN), (u64::MAX, u64::MAX - 1, 0xffff_ffff_8000_0000));
}

#[test]
fn lib_version_string_reads_the_bytes() {
    assert_eq!(lib_version_string(b"0.2.5"), "0.2.5");
    assert_eq!(lib_version_string(b""), "");
    assert_eq!(lib_version_string(&[0x30, 0x80]), "0\u{fffd}");
}

#[test]
fn parser_error_message_and_source() {
    let error = ParserError::LibYamlError;
    assert_eq!(error.to_string(), "YAML parser error");
    assert!(error.source().is_none());
    let error = ParserError::IoError(io::Error::new(io::ErrorKind::NotFound, "missing"));
    assert_eq!(error.to_string(), "YAML parser error");
    let source = error.source().expect("an I/O error has a source");
    assert_eq!(source.kind(), io::ErrorKind::NotFound);
    assert_eq!(source.to_string(), "missing");
}

#[test]
fn emitter_error_message_and_source() {
    let error = EmitterError::LibYamlError;
    assert_eq!(error.to_string(), "YAML emitter error");
    assert!(error.source().is_none());
    let error = EmitterError::IoError(io::Error::new(io::ErrorKind::WriteZero, "full"));
    assert_eq!(error.to_string(), "YAML emitter error");
    let source = error.source().expect("an I/O error has a source");
    assert_eq!(source.kind(), io::ErrorKind::WriteZero);
}

#[test]
fn event_error_becomes_engine_error() {
    assert!(matches!(ParserError::from(EventError), ParserError::LibYamlError));
    assert!(matches!(EmitterError::from(EventError), EmitterError::LibYamlError));
}

#[test]
fn tag_names() {
    assert_eq!(tag::MAP, "tag:yaml.org,2002:map");
    assert_eq!(tag::OMAP, "tag:yaml.org,2002:omap");
    assert_eq!(tag::PAIRS, "tag:yaml.org,2002:pairs");
    assert_eq!(tag::SET, "tag:yaml.org,2002:set");
    assert_eq!(tag::SEQ, "tag:yaml.org,2002:seq");
    assert_eq!(tag::BINARY, "tag:yaml.org,2002:binary");
    assert_eq!(tag::BOOL, "tag:yaml.org,2002:bool");
    assert_eq!(tag::FLOAT, "tag:yaml.org,2002:float");
    assert_eq!(tag::INT, "tag:yaml.org,2002:int");
    assert_eq!(tag::MERGE, "tag:yaml.org,2002:merge");
    assert_eq!(tag::NULL, "tag:yaml.org,2002:null");
    assert_eq!(tag::STR, "tag:yaml.org,2002:str");
    assert_eq!(tag::TIMESTAMP, "tag:yaml.org,2002:timestamp");
    assert_eq!(tag::VALUE, "tag:yaml.org,2002:value");
    assert_eq!(tag::YAML, "tag:yaml.org,2002:yaml");
}

#[test]
fn text_into_raw_encodes_as_utf8() {
    assert_eq!(libyaml::text::text_into_raw(""), Ok(vec![]));
    assert_eq!(libyaml::text::text_into_raw("a b"), Ok(vec![0x61, 0x20, 0x62]));
    assert_eq!(libyaml::text::text_into_raw("é€"), Ok(vec![0xc3, 0xa9, 0xe2, 0x82, 0xac]));
}

#[test]
fn text_into_raw_refuses_nul() {
    assert_eq!(libyaml::text::text_into_raw("\0"), Err(EventError));
    assert_eq!(libyaml::text::text_into_raw("abc\0"), Err(EventError));
    assert_eq!(libyaml::text::text_into_raw("é\0é"), Err(EventError));
}

#[test]
fn text_from_raw_decodes_utf8() {
    assert_eq!(libyaml::text::text_from_raw(&[]), "");
    assert_eq!(libyaml::text::text_from_raw(&[0xc3, 0xa9, 0xe2, 0x82, 0xac]), "é€");
    assert_eq!(libyaml::text::text_from_raw(&[0xc3]), "\u{fffd}");
    assert_eq!(libyaml::text::text_from_raw(&[0x61, 0xed, 0xa0, 0x80]), "a\u{fffd}\u{fffd}\u{fffd}");
}

#[test]
fn text_comes_back_from_its_bytes() {
    for text in ["", "plain", "ünïcödé", "日本語", "𝄞 clef", "tab\tnewline\n"] {
        let bytes = libyaml::text::text_into_raw(text).unwrap();
        assert_eq!(libyaml::text::text_from_raw(&bytes), text);
    }
}

#[test]
fn flags_are_one_and_zero() {
    assert_eq!(libyaml::sys::flag_into_raw(true), 1);
    assert_eq!(libyaml::sys::flag_into_raw(false), 0);
}
