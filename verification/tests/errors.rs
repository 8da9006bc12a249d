use yaml_codec::error::{format_u64, Error, ErrorKind, Mark};

fn mark(index: u64, line: u64, column: u64) -> Mark {
    Mark { index, line, column }
}

#[test]
fn decimal_formatting() {
    assert_eq!(format_u64(0), "0");
    assert_eq!(format_u64(7), "7");
    assert_eq!(format_u64(10), "10");
    assert_eq!(format_u64(1234567890), "1234567890");
    assert_eq!(format_u64(u64::MAX), "18446744073709551615");
}

#[test]
fn mark_display_prefers_line_and_column() {
    assert_eq!(mark(12, 1, 2).display(), "line 2 column 3");
    assert_eq!(mark(0, 0, 4).display(), "line 1 column 5");
    assert_eq!(mark(0, 3, 0).display(), "line 4 column 1");
}

#[test]
fn mark_display_falls_back_to_the_offset() {
    assert_eq!(mark(12, 0, 0).display(), "position 12");
    assert_eq!(mark(0, 0, 0).display(), "position 0");
}

#[test]
fn mark_accessors_and_default() {
    let m = mark(3, 4, 5);
    assert_eq!(m.index(), 3);
    assert_eq!(m.line(), 4);
    assert_eq!(m.column(), 5);
    assert_eq!(Mark::default(), mark(0, 0, 0));
}

#[test]
fn message_with_problem_only() {
    let error = Error::get_parser_error(
        ErrorKind::Parser,
        Some(String::from("oops")),
        0,
        mark(0, 0, 0),
        None,
        mark(0, 0, 0),
    );
    assert_eq!(error.message(), "oops");
}

#[test]
fn message_without_problem_text() {
    let error = Error::get_parser_error(ErrorKind::Parser, None, 0, mark(0, 0, 0), None, mark(0, 0, 0));
    assert_eq!(error.message(), "libyaml parser failed but there is no error");
}

#[test]
fn message_with_problem_mark() {
    let error = Error::get_parser_error(
        ErrorKind::Scanner,
        Some(String::from("oops")),
        9,
        mark(9, 1, 2),
        None,
        mark(0, 0, 0),
    );
    assert_eq!(error.message(), "oops at line 2 column 3");
}

#[test]
fn message_with_offset_only() {
    let error = Error::get_parser_error(
        ErrorKind::Reader,
        Some(String::from("oops")),
        42,
        mark(42, 0, 0),
        None,
        mark(0, 0, 0),
    );
    assert_eq!(error.message(), "oops at position 42");
}

#[test]
fn message_appends_context_and_its_own_position() {
    let error = Error::get_parser_error(
        ErrorKind::Parser,
        Some(String::from("did not find expected key")),
        20,
        mark(20, 4, 2),
        Some(String::from("while parsing a block mapping")),
        mark(5, 1, 0),
    );
    assert_eq!(
        error.message(),
        "did not find expected key at line 5 column 3, while parsing a block mapping at line 2 column 1"
    );
}

#[test]
fn context_position_is_dropped_when_it_matches_the_problem() {
    let error = Error::get_parser_error(
        ErrorKind::Parser,
        Some(String::from("oops")),
        20,
        mark(20, 4, 2),
        Some(String::from("while parsing")),
        mark(20, 4, 2),
    );
    assert_eq!(error.message(), "oops at line 5 column 3, while parsing");
}

#[test]
fn context_with_unavailable_position_is_text_only() {
    let error = Error::get_parser_error(
        ErrorKind::Composer,
        Some(String::from("oops")),
        0,
        mark(0, 2, 2),
        Some(String::from("in a flow node")),
        mark(0, 0, 0),
    );
    assert_eq!(error.message(), "oops at line 3 column 3, in a flow node");
}

#[test]
fn emitter_snapshot_has_no_position() {
    let error = Error::get_emitter_error(ErrorKind::Emitter, Some(String::from("no output")));
    assert_eq!(error.kind, ErrorKind::Emitter);
    assert_eq!(error.problem_offset, 0);
    assert_eq!(error.mark(), Mark::default());
    assert!(error.context.is_none());
    assert_eq!(error.message(), "no output");
}

#[test]
fn duplicate_copies_every_field() {
    let error = Error::get_parser_error(
        ErrorKind::Scanner,
        Some(String::from("oops")),
        9,
        mark(9, 1, 2),
        Some(String::from("while scanning")),
        mark(2, 0, 1),
    );
    let copy = error.duplicate();
    assert_eq!(copy.kind, error.kind);
    assert_eq!(copy.problem, error.problem);
    assert_eq!(copy.problem_offset, error.problem_offset);
    assert_eq!(copy.problem_mark, error.problem_mark);
    assert_eq!(copy.context, error.context);
    assert_eq!(copy.context_mark, error.context_mark);
}

#[test]
fn core_schema_tags_are_reserved() {
    assert_eq!(yaml_codec::parser::Tag::NULL, "tag:yaml.org,2002:null");
    assert_eq!(yaml_codec::parser::Tag::BOOL, "tag:yaml.org,2002:bool");
    assert_eq!(yaml_codec::parser::Tag::INT, "tag:yaml.org,2002:int");
    assert_eq!(yaml_codec::parser::Tag::FLOAT, "tag:yaml.org,2002:float");
}
