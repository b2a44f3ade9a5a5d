use worley_noise::shader::{
    failure, log_text_len, next_step, succeeded, BuildError, BuildKind, BuildStep, DriverReply,
    STATUS_OK,
};

#[test]
fn status_ok_is_the_bindings_true() {
    assert_eq!(STATUS_OK, i32::from(gl::TRUE));
    assert_ne!(STATUS_OK, i32::from(gl::FALSE));
}

#[test]
fn good_status_succeeds() {
    assert!(succeeded(1));
    assert!(succeeded(i32::from(gl::TRUE)));
}

#[test]
fn any_other_status_fails() {
    assert!(!succeeded(0));
    assert!(!succeeded(i32::from(gl::FALSE)));
    assert!(!succeeded(2));
    assert!(!succeeded(-1));
    assert!(!succeeded(i32::MAX));
    assert!(!succeeded(i32::MIN));
}

#[test]
fn good_status_accepts_the_object() {
    assert_eq!(next_step(BuildKind::Shader, DriverReply::Status(1)), BuildStep::Accept);
    assert_eq!(next_step(BuildKind::Program, DriverReply::Status(1)), BuildStep::Accept);
}

#[test]
fn bad_status_asks_for_the_log_length() {
    assert_eq!(
        next_step(BuildKind::Shader, DriverReply::Status(0)),
        BuildStep::QueryLogLength
    );
    assert_eq!(
        next_step(BuildKind::Program, DriverReply::Status(0)),
        BuildStep::QueryLogLength
    );
    assert_eq!(
        next_step(BuildKind::Shader, DriverReply::Status(-7)),
        BuildStep::QueryLogLength
    );
}

#[test]
fn text_is_one_byte_shorter_than_the_log() {
    assert_eq!(log_text_len(1), Some(0));
    assert_eq!(log_text_len(2), Some(1));
    assert_eq!(log_text_len(12), Some(11));
    assert_eq!(log_text_len(i32::MAX), Some(2147483646));
}

#[test]
fn log_without_terminator_has_no_text() {
    assert_eq!(log_text_len(0), None);
    assert_eq!(log_text_len(-1), None);
    assert_eq!(log_text_len(i32::MIN), None);
}

#[test]
fn log_length_asks_for_the_log() {
    assert_eq!(
        next_step(BuildKind::Shader, DriverReply::LogLength(12)),
        BuildStep::ReadLog { capacity: 12, text_len: 11 }
    );
    assert_eq!(
        next_step(BuildKind::Program, DriverReply::LogLength(1)),
        BuildStep::ReadLog { capacity: 1, text_len: 0 }
    );
}

#[test]
fn log_length_below_one_aborts() {
    assert_eq!(
        next_step(BuildKind::Shader, DriverReply::LogLength(0)),
        BuildStep::Abort(BuildError::BadLogLength { kind: BuildKind::Shader, len: 0 })
    );
    assert_eq!(
        next_step(BuildKind::Program, DriverReply::LogLength(-3)),
        BuildStep::Abort(BuildError::BadLogLength { kind: BuildKind::Program, len: -3 })
    );
}

#[test]
fn log_aborts_with_its_text() {
    let log = b"0:1(1): error: syntax error".to_vec();
    assert_eq!(
        next_step(BuildKind::Shader, DriverReply::Log(log)),
        BuildStep::Abort(BuildError::Rejected {
            kind: BuildKind::Shader,
            log: String::from("0:1(1): error: syntax error"),
        })
    );
}

#[test]
fn empty_log_aborts_with_empty_text() {
    assert_eq!(
        next_step(BuildKind::Program, DriverReply::Log(Vec::new())),
        BuildStep::Abort(BuildError::Rejected { kind: BuildKind::Program, log: String::new() })
    );
}

#[test]
fn log_is_decoded_as_utf8() {
    let error = failure(BuildKind::Shader, vec![0xc3, 0xa9, 0xe2, 0x82, 0xac, 0x21]);
    match error {
        BuildError::Rejected { kind, log } => {
            assert_eq!(kind, BuildKind::Shader);
            assert_eq!(log.chars().count(), 3);
            assert_eq!(log, "\u{e9}\u{20ac}!");
        }
        other => panic!("unexpected error: {:?}", other),
    }
}

#[test]
fn log_that_is_not_utf8_is_reported() {
    assert_eq!(
        failure(BuildKind::Shader, vec![0x66, 0xff, 0x6f]),
        BuildError::LogNotUtf8 { kind: BuildKind::Shader }
    );
    assert_eq!(
        next_step(BuildKind::Program, DriverReply::Log(vec![0xc3])),
        BuildStep::Abort(BuildError::LogNotUtf8 { kind: BuildKind::Program })
    );
    assert_eq!(
        failure(BuildKind::Program, vec![0xed, 0xa0, 0x80]),
        BuildError::LogNotUtf8 { kind: BuildKind::Program }
    );
}

#[test]
fn rejected_build_shows_the_log() {
    let error = failure(BuildKind::Program, b"error: linking failed".to_vec());
    assert_eq!(error.message(), "error: linking failed");
    assert_eq!(error.kind(), BuildKind::Program);
}

#[test]
fn undecodable_log_names_its_build() {
    let shader = BuildError::LogNotUtf8 { kind: BuildKind::Shader };
    let program = BuildError::LogNotUtf8 { kind: BuildKind::Program };
    assert_eq!(shader.message(), "ShaderInfoLog not valid utf8.");
    assert_eq!(program.message(), "ProgramInfoLog not valid utf8");
    assert_eq!(shader.kind(), BuildKind::Shader);
    assert_eq!(program.kind(), BuildKind::Program);
}

#[test]
fn bad_log_length_names_its_build() {
    let shader = BuildError::BadLogLength { kind: BuildKind::Shader, len: 0 };
    let program = BuildError::BadLogLength { kind: BuildKind::Program, len: -1 };
    assert_eq!(shader.message(), "ShaderInfoLog has no valid length");
    assert_eq!(program.message(), "ProgramInfoLog has no valid length");
    assert_eq!(shader.kind(), BuildKind::Shader);
    assert_eq!(program.kind(), BuildKind::Program);
}

#[test]
fn failed_build_runs_to_an_abort() {
    let kind = BuildKind::Shader;
    assert_eq!(next_step(kind, DriverReply::Status(0)), BuildStep::QueryLogLength);
    let step = next_step(kind, DriverReply::LogLength(6));
    assert_eq!(step, BuildStep::ReadLog { capacity: 6, text_len: 5 });
    let mut buffer = b"oops!\0".to_vec();
    buffer.truncate(5);
    match next_step(kind, DriverReply::Log(buffer)) {
        BuildStep::Abort(error) => assert_eq!(error.message(), "oops!"),
        other => panic!("unexpected step: {:?}", other),
    }
}

#[test]
fn nothing_but_a_good_status_is_accepted() {
    let replies = vec![
        DriverReply::Status(0),
        DriverReply::Status(2),
        DriverReply::LogLength(1),
        DriverReply::LogLength(0),
        DriverReply::Log(Vec::new()),
        DriverReply::Log(vec![1]),
    ];
    for reply in replies {
        assert_ne!(next_step(BuildKind::Shader, reply), BuildStep::Accept);
    }
}
