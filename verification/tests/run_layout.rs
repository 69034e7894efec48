use capsula::captured::Captured;
use capsula::error::{CoreError, IoKind};
use capsula::json::JsonValue;
use capsula::run::{
    exit_code_from_status, setup_vault, FsStep, Run, RunOutput, StreamCapture, TeeStep,
};

// 2025-09-20T12:34:56.789Z
const AT: u128 = 1_758_371_696_789;

fn run_at(ms: u128, name: &str, command: &[&str]) -> Run<()> {
    Run {
        id: (ms << 80) | 0x2A,
        name: name.to_string(),
        command: command.iter().map(|w| w.to_string()).collect(),
        run_dir: (),
    }
}

fn crockford(id: u128) -> String {
    let alphabet: Vec<char> = "0123456789ABCDEFGHJKMNPQRSTVWXYZ".chars().collect();
    (0..26).map(|i| alphabet[((id >> (125 - 5 * i)) & 31) as usize]).collect()
}

#[test]
fn timestamp_is_the_upper_48_bits() {
    assert_eq!(run_at(AT, "n", &["true"]).timestamp(), 1_758_371_696_789);
    let all_ones = Run { id: u128::MAX, name: String::new(), command: vec![], run_dir: () };
    assert_eq!(all_ones.timestamp(), (1u64 << 48) - 1);
    let zero = Run { id: 0, name: String::new(), command: vec![], run_dir: () };
    assert_eq!(zero.timestamp(), 0);
}

#[test]
fn run_dir_has_date_time_name_and_id() {
    let run = run_at(AT, "brave-otter", &["true"]);
    let id_text = crockford(run.id);
    assert_eq!(id_text.len(), 26);
    assert_eq!(
        run.run_dir("/vault"),
        format!("/vault/2025-09-20/123456-brave-otter--{}", id_text)
    );
}

#[test]
fn run_dir_of_the_epoch() {
    let run = Run { id: 1, name: "first".to_string(), command: vec![], run_dir: () };
    assert_eq!(
        run.run_dir("vault/"),
        "vault/1970-01-01/000000-first--00000000000000000000000001"
    );
}

#[test]
fn run_dir_known_identifier_text() {
    // 2021-01-01T00:00:00Z
    let run = Run {
        id: (1_609_459_200_000u128 << 80) | 1,
        name: "x".to_string(),
        command: vec![],
        run_dir: (),
    };
    assert_eq!(run.run_dir(""), "2021-01-01/000000-x--01ETXKWW000000000000000001");
}

#[test]
fn run_dir_is_the_same_when_computed_twice() {
    let run = run_at(AT, "twice", &["echo", "hi"]);
    assert_eq!(run.run_dir("/v"), run.run_dir("/v"));
    let other_command = run_at(AT, "twice", &["ls"]);
    assert_eq!(run.run_dir("/v"), other_command.run_dir("/v"));
}

#[test]
fn run_dir_names_sort_by_time_within_a_day() {
    let early = run_at(AT, "zzz", &["true"]);
    let late = run_at(AT + 1_000, "aaa", &["true"]);
    let early_dir = early.run_dir("/v");
    let late_dir = late.run_dir("/v");
    assert!(early_dir < late_dir);
    let much_later = run_at(AT + 3_600_000, "aaa", &["true"]);
    assert!(late_dir < much_later.run_dir("/v"));
}

#[test]
fn run_dirs_of_different_runs_differ() {
    let a = run_at(AT, "same", &["true"]);
    let mut b = run_at(AT, "same", &["true"]);
    b.id += 1;
    assert_ne!(a.run_dir("/v"), b.run_dir("/v"));
}

#[test]
fn setup_vault_creates_directory_and_ignore_file() {
    let steps = setup_vault("/project/.capsula/vault", false);
    assert_eq!(
        steps,
        vec![
            FsStep::CreateDirAll { path: "/project/.capsula/vault".to_string() },
            FsStep::WriteFile {
                path: "/project/.capsula/vault/.gitignore".to_string(),
                contents: "# Automatically generated by Capsula\n*".to_string(),
            },
        ]
    );
}

#[test]
fn setup_vault_does_nothing_for_an_existing_vault() {
    assert_eq!(setup_vault("/project/.capsula/vault", true), vec![]);
}

#[test]
fn setup_vault_twice_is_a_no_op_the_second_time() {
    let mut existing: Vec<String> = vec![];
    let first = setup_vault("/v", existing.contains(&"/v".to_string()));
    for step in &first {
        if let FsStep::CreateDirAll { path } = step {
            existing.push(path.clone());
        }
    }
    assert_eq!(first.len(), 2);
    let second = setup_vault("/v", existing.contains(&"/v".to_string()));
    assert!(second.is_empty());
}

#[test]
fn setup_run_dir_binds_the_run() {
    let run = run_at(AT, "bound", &["echo", "a b"]);
    let dir = run.run_dir("/v");
    let prep = run.setup_run_dir("/v", false);
    assert_eq!(prep.steps.len(), 3);
    assert_eq!(prep.steps[0], FsStep::CreateDirAll { path: "/v".to_string() });
    assert_eq!(prep.steps[2], FsStep::CreateDirAll { path: dir.clone() });
    assert_eq!(prep.run.id, run.id);
    assert_eq!(prep.run.name, "bound");
    assert_eq!(prep.run.command, vec!["echo".to_string(), "a b".to_string()]);
    assert_eq!(prep.run.run_dir, dir);

    let again = run.setup_run_dir("/v", true);
    assert_eq!(again.steps, vec![FsStep::CreateDirAll { path: dir }]);
}

#[test]
fn exec_refuses_an_empty_command() {
    let run = Run { id: 7, name: "none".to_string(), command: vec![], run_dir: "/d".to_string() };
    assert_eq!(
        run.exec(),
        Err(CoreError::Io {
            path: None,
            kind: IoKind::InvalidInput,
            message: "empty command".to_string(),
        })
    );
}

#[test]
fn exec_plans_program_arguments_and_environment() {
    let prepared = run_at(AT, "plan", &["echo", "hello world", "it's"]).setup_run_dir("/v", true).run;
    let launch = prepared.exec().unwrap();
    assert_eq!(launch.program, "echo");
    assert_eq!(launch.args, vec!["hello world".to_string(), "it's".to_string()]);
    let env: Vec<(&str, &str)> =
        launch.env.iter().map(|(k, v)| (k.as_str(), v.as_str())).collect();
    let id_text = crockford(prepared.id);
    assert_eq!(
        env,
        vec![
            ("CAPSULA_RUN_ID", id_text.as_str()),
            ("CAPSULA_RUN_NAME", "plan"),
            ("CAPSULA_RUN_DIRECTORY", prepared.run_dir.as_str()),
            ("CAPSULA_RUN_TIMESTAMP", "2025-09-20T12:34:56.789+00:00"),
            ("CAPSULA_RUN_COMMAND", "echo 'hello world' \"it's\""),
        ]
    );
}

#[test]
fn exec_leaves_the_command_out_when_a_word_cannot_be_quoted() {
    let prepared = run_at(AT, "nul", &["printf", "a\0b"]).setup_run_dir("/v", true).run;
    let launch = prepared.exec().unwrap();
    assert_eq!(launch.program, "printf");
    assert_eq!(launch.args, vec!["a\0b".to_string()]);
    assert_eq!(launch.env.len(), 4);
    assert!(launch.env.iter().all(|(k, _)| k != "CAPSULA_RUN_COMMAND"));
}

#[test]
fn exec_with_a_program_alone() {
    let prepared = run_at(AT, "solo", &["true"]).setup_run_dir("/v", true).run;
    let launch = prepared.exec().unwrap();
    assert_eq!(launch.program, "true");
    assert!(launch.args.is_empty());
    assert_eq!(launch.env[4], ("CAPSULA_RUN_COMMAND".to_string(), "true".to_string()));
}

#[test]
fn exit_code_is_normalized() {
    assert_eq!(exit_code_from_status(Some(0), None), 0);
    assert_eq!(exit_code_from_status(Some(3), None), 3);
    assert_eq!(exit_code_from_status(Some(3), Some(9)), 3);
    assert_eq!(exit_code_from_status(None, Some(9)), 137);
    assert_eq!(exit_code_from_status(None, Some(15)), 143);
    assert_eq!(exit_code_from_status(None, None), 1);
    assert_eq!(exit_code_from_status(Some(-1), None), -1);
}

#[test]
fn capture_appends_chunks_in_order() {
    let mut capture = StreamCapture::new();
    let mut buffer = [0u8; 8];
    buffer[..5].copy_from_slice(b"hello");
    assert_eq!(capture.absorb(&buffer, 5), TeeStep::Relay);
    buffer[..1].copy_from_slice(b"\n");
    assert_eq!(capture.absorb(&buffer, 1), TeeStep::Relay);
    assert_eq!(capture.absorb(&buffer, 0), TeeStep::Finish);
    assert_eq!(capture.bytes, b"hello\n");
}

#[test]
fn capture_holds_a_large_payload_verbatim() {
    let payload: Vec<u8> = (0..1_200_000u32).map(|i| (i.wrapping_mul(31) >> 3) as u8).collect();
    let mut out = StreamCapture::new();
    let mut err = StreamCapture::new();
    let mut turn = 0usize;
    let mut out_at = 0usize;
    let mut err_at = payload.len();
    // The two streams are fed in turn, as two readers would, in chunks of
    // up to 8192 bytes of different sizes.
    while out_at < payload.len() || err_at > 0 {
        if out_at < payload.len() {
            let n = (8192 - turn % 97).min(payload.len() - out_at);
            assert_eq!(out.absorb(&payload[out_at..], n), TeeStep::Relay);
            out_at += n;
        }
        if err_at > 0 {
            let n = (4096 + turn % 89).min(err_at);
            let chunk: Vec<u8> = payload[err_at - n..err_at].iter().rev().cloned().collect();
            assert_eq!(err.absorb(&chunk, n), TeeStep::Relay);
            err_at -= n;
        }
        turn += 1;
    }
    assert_eq!(out.absorb(&[], 0), TeeStep::Finish);
    assert_eq!(err.absorb(&[], 0), TeeStep::Finish);
    assert_eq!(out.bytes, payload);
    let reversed: Vec<u8> = payload.iter().rev().cloned().collect();
    assert_eq!(err.bytes, reversed);
}

#[test]
fn output_of_a_command_that_prints_hello() {
    let mut out = StreamCapture::new();
    out.absorb(b"hello\n", 6);
    let err = StreamCapture::new();
    let output = RunOutput::collect(Some(0), None, &out, &err, 0, 1_500_000);
    assert_eq!(
        output,
        RunOutput {
            exit_code: 0,
            stdout: "hello\n".to_string(),
            stderr: String::new(),
            duration_secs: 0,
            duration_nanos: 1_500_000,
        }
    );
}

#[test]
fn output_of_a_killed_command() {
    let out = StreamCapture::new();
    let mut err = StreamCapture::new();
    err.absorb("Grüße".as_bytes(), "Grüße".len());
    let output = RunOutput::collect(None, Some(9), &out, &err, 2, 0);
    assert_eq!(output.exit_code, 137);
    assert_eq!(output.stdout, "");
    assert_eq!(output.stderr, "Grüße");
    assert_eq!(output.duration_secs, 2);
}

#[test]
fn output_replaces_what_is_not_utf8() {
    let mut out = StreamCapture::new();
    out.absorb(&[b'a', 0xFF, b'b'], 3);
    let output = RunOutput::collect(Some(3), None, &out, &StreamCapture::new(), 0, 0);
    assert_eq!(output.exit_code, 3);
    assert_eq!(output.stdout, "a\u{FFFD}b");
}

#[test]
fn run_output_as_a_document() {
    let output = RunOutput {
        exit_code: -2,
        stdout: "o".to_string(),
        stderr: "e".to_string(),
        duration_secs: 3,
        duration_nanos: 4,
    };
    assert_eq!(
        output.to_json(),
        JsonValue::Object(vec![
            ("exit_code".to_string(), JsonValue::Int(-2)),
            ("stdout".to_string(), JsonValue::String("o".to_string())),
            ("stderr".to_string(), JsonValue::String("e".to_string())),
            (
                "duration".to_string(),
                JsonValue::Object(vec![
                    ("secs".to_string(), JsonValue::UInt(3)),
                    ("nanos".to_string(), JsonValue::UInt(4)),
                ]),
            ),
        ])
    );
}

#[test]
fn run_as_a_document() {
    let run = run_at(AT, "doc", &["echo", "x"]);
    let words = JsonValue::Array(vec![
        JsonValue::String("echo".to_string()),
        JsonValue::String("x".to_string()),
    ]);
    let mut fields = vec![
        ("id".to_string(), JsonValue::String(crockford(run.id))),
        ("name".to_string(), JsonValue::String("doc".to_string())),
        ("command".to_string(), words),
        ("timestamp".to_string(), JsonValue::String("2025-09-20T12:34:56.789+00:00".to_string())),
    ];
    assert_eq!(run.to_json(), JsonValue::Object(fields.clone()));
    let prepared = run.setup_run_dir("/v", true).run;
    fields.push(("run_dir".to_string(), JsonValue::String(prepared.run_dir.clone())));
    assert_eq!(prepared.to_json(), JsonValue::Object(fields));
}

#[test]
fn run_dir_names_of_one_second_sort_by_what_follows_the_time() {
    let first = run_at(AT, "bbb", &["true"]);
    let second = run_at(AT + 1, "aaa", &["true"]);
    // Created later, but within the same second: the name decides.
    assert!(second.run_dir("/v") < first.run_dir("/v"));
}

#[test]
fn run_dir_names_of_different_days_lie_in_different_directories() {
    // 1970-01-01T23:59:59Z and 1970-01-02T00:00:00Z
    let before_midnight = run_at(86_399_000, "n", &["true"]);
    let at_midnight = run_at(86_400_000, "n", &["true"]);
    let early = before_midnight.run_dir("/v");
    let late = at_midnight.run_dir("/v");
    assert!(early.starts_with("/v/1970-01-01/235959-n--"));
    assert!(late.starts_with("/v/1970-01-02/000000-n--"));
    // The whole paths sort by time; the names alone, here, do not.
    assert!(early < late);
    assert!(early["/v/1970-01-01/".len()..] > late["/v/1970-01-02/".len()..]);
}

#[test]
fn run_dir_of_the_last_moment_an_identifier_can_carry() {
    let run = Run { id: u128::MAX, name: "max".to_string(), command: vec![], run_dir: () };
    assert_eq!(
        run.run_dir("/v"),
        "/v/+10889-08-02/053150-max--7ZZZZZZZZZZZZZZZZZZZZZZZZZ"
    );
    let prepared = run.setup_run_dir("/v", true).run;
    let launch = Run { command: vec!["true".to_string()], ..prepared }.exec().unwrap();
    assert_eq!(launch.env[3].1, "+10889-08-02T05:31:50.655+00:00");
}
