use capsula::captured::Captured;
use capsula::context::{Context, ContextErased, ContextPhase, Observation, Probe, Progress, RuntimeParams};
use capsula::cwd::{CwdCaptured, CwdContext};
use capsula::error::{CoreError, IoKind};
use capsula::file::{
    file_digest_sha256, CaptureMode, FileCaptured, FileCapturedPerFile, FileContext, FileProgress,
    HashAlgorithm,
};
use capsula::git::{GitCaptured, GitContext};
use capsula::json::JsonValue;

const ABC_SHA256: &str = "ba7816bf8f01cfea414140de5dae2223b00361a396177a9cb410ff61f20015ad";
const EMPTY_SHA256: &str = "e3b0c44298fc1c149afbf4c8996fb92427ae41e4649b934ca495991b7852b855";

fn text(s: &str) -> JsonValue {
    JsonValue::String(s.to_string())
}

fn params(run_dir: Option<&str>) -> RuntimeParams {
    RuntimeParams {
        phase: ContextPhase::Pre,
        run_dir: run_dir.map(|d| d.to_string()),
        project_root: "/project".to_string(),
    }
}

fn io(kind: IoKind, message: &str) -> CoreError {
    CoreError::Io { path: None, kind, message: message.to_string() }
}

fn failed(kind: IoKind, message: &str) -> Observation {
    Observation::Failed { kind, message: message.to_string() }
}

#[test]
fn cwd_context_captures_current_dir_and_json() {
    // Arrange
    let expected = "/home/user/project".to_string();
    let ctx = CwdContext::default();
    let params = RuntimeParams {
        phase: ContextPhase::Pre,
        run_dir: None,
        project_root: expected.clone(),
    };

    // Act
    assert_eq!(ctx.run(&params, &vec![]), Progress::Ask(Probe::CurrentDir));
    let captured = match ctx.run(&params, &vec![Observation::Dir(expected.clone())]) {
        Progress::Done(Ok(captured)) => captured,
        other => panic!("CwdContext::run ok, got {:?}", other),
    };
    let json = captured.to_json();
    let json_cwd = json.get("cwd").and_then(|v| v.as_str()).expect("json has 'cwd' string");

    // Assert (captured struct)
    assert_eq!(captured.cwd_abs, expected, "cwd_abs should match current_dir");

    // Assert (JSON view)
    assert_eq!(json_cwd, expected, "JSON 'cwd' should match current_dir string");
}

#[test]
fn cwd_document_has_its_type() {
    let captured = CwdCaptured { cwd_abs: "/a".to_string() };
    assert_eq!(
        captured.to_json(),
        JsonValue::Object(vec![("type".to_string(), text("cwd")), ("cwd".to_string(), text("/a"))])
    );
}

#[test]
fn cwd_hands_on_a_failure_of_the_host() {
    let seen = vec![failed(IoKind::NotFound, "gone")];
    assert_eq!(
        CwdContext.run(&params(None), &seen),
        Progress::Done(Err(io(IoKind::NotFound, "gone")))
    );
}

#[test]
fn cwd_refuses_an_observation_of_the_wrong_kind() {
    let seen = vec![Observation::Changes(0)];
    assert_eq!(
        CwdContext.run(&params(None), &seen),
        Progress::Done(Err(io(IoKind::InvalidData, "unexpected observation")))
    );
}

#[test]
fn erased_run_hands_over_the_document() {
    let seen = vec![Observation::Dir("/a".to_string())];
    assert_eq!(
        CwdContext.run_erased(&params(None), &seen),
        Progress::Done(Ok(CwdCaptured { cwd_abs: "/a".to_string() }.to_json()))
    );
    assert_eq!(CwdContext.run_erased(&params(None), &vec![]), Progress::Ask(Probe::CurrentDir));
    let failure = vec![failed(IoKind::Other, "x")];
    assert_eq!(
        CwdContext.run_erased(&params(None), &failure),
        Progress::Done(Err(io(IoKind::Other, "x")))
    );
}

fn git(working_dir: &str, allow_dirty: bool) -> GitContext {
    GitContext { name: "repo".to_string(), working_dir: working_dir.to_string(), allow_dirty }
}

fn head(sha: &str) -> Observation {
    Observation::Head(Some(sha.to_string()))
}

fn captured_git(dir: &str, sha: &str) -> Progress<GitCaptured> {
    Progress::Done(Ok(GitCaptured {
        name: "repo".to_string(),
        working_dir: dir.to_string(),
        sha: sha.to_string(),
    }))
}

#[test]
fn git_reads_head_then_checks_for_changes() {
    let ctx = git("/repo", false);
    let p = params(None);
    assert_eq!(ctx.run(&p, &vec![]), Progress::Ask(Probe::GitHead { path: "/repo".to_string() }));
    assert_eq!(
        ctx.run(&p, &vec![head("abc")]),
        Progress::Ask(Probe::GitChanges { path: "/repo".to_string() })
    );
    assert_eq!(ctx.run(&p, &vec![head("abc"), Observation::Changes(0)]), captured_git("/repo", "abc"));
}

#[test]
fn git_refuses_uncommitted_changes() {
    let ctx = git("/repo", false);
    assert_eq!(
        ctx.run(&params(None), &vec![head("abc"), Observation::Changes(2)]),
        Progress::Done(Err(io(IoKind::Other, "Repository has uncommitted changes")))
    );
}

#[test]
fn git_tolerates_changes_when_told_to() {
    let ctx = git("/repo", true);
    assert_eq!(ctx.run(&params(None), &vec![head("abc")]), captured_git("/repo", "abc"));
}

#[test]
fn git_needs_a_head_that_points_at_a_commit() {
    let ctx = git("/repo", true);
    assert_eq!(
        ctx.run(&params(None), &vec![Observation::Head(None)]),
        Progress::Done(Err(io(IoKind::Other, "Failed to get HEAD target")))
    );
}

#[test]
fn git_without_a_working_dir_asks_for_the_current_one() {
    let ctx = git("", true);
    let p = params(None);
    assert_eq!(ctx.run(&p, &vec![]), Progress::Ask(Probe::CurrentDir));
    let dir = Observation::Dir("/cwd".to_string());
    assert_eq!(
        ctx.run(&p, &vec![dir.clone()]),
        Progress::Ask(Probe::GitHead { path: "/cwd".to_string() })
    );
    assert_eq!(ctx.run(&p, &vec![dir, head("f00")]), captured_git("/cwd", "f00"));
    assert_eq!(GitContext::default().run(&p, &vec![]), Progress::Ask(Probe::CurrentDir));
}

#[test]
fn git_hands_on_failures_of_the_host() {
    let ctx = git("/repo", false);
    let p = params(None);
    assert_eq!(
        ctx.run(&p, &vec![failed(IoKind::Other, "could not find repository")]),
        Progress::Done(Err(io(IoKind::Other, "could not find repository")))
    );
    assert_eq!(
        ctx.run(&p, &vec![head("abc"), failed(IoKind::Other, "status failed")]),
        Progress::Done(Err(io(IoKind::Other, "status failed")))
    );
    assert_eq!(
        ctx.run(&p, &vec![Observation::Done]),
        Progress::Done(Err(io(IoKind::InvalidData, "unexpected observation")))
    );
    assert_eq!(
        ctx.run(&p, &vec![head("abc"), Observation::Done]),
        Progress::Done(Err(io(IoKind::InvalidData, "unexpected observation")))
    );
    assert_eq!(
        git("", false).run(&p, &vec![failed(IoKind::PermissionDenied, "cwd")]),
        Progress::Done(Err(io(IoKind::PermissionDenied, "cwd")))
    );
}

#[test]
fn git_document_has_its_fields() {
    let captured = GitCaptured {
        name: "n".to_string(),
        working_dir: "/w".to_string(),
        sha: "s".to_string(),
    };
    assert_eq!(
        captured.to_json(),
        JsonValue::Object(vec![
            ("type".to_string(), text("git")),
            ("name".to_string(), text("n")),
            ("working_dir".to_string(), text("/w")),
            ("sha".to_string(), text("s")),
        ])
    );
}

#[test]
fn sha256_of_known_contents() {
    assert_eq!(file_digest_sha256(b"abc"), ABC_SHA256);
    assert_eq!(file_digest_sha256(b""), EMPTY_SHA256);
}

fn files(mode: CaptureMode, hash: HashAlgorithm) -> FileContext {
    FileContext { glob: "*.txt".to_string(), mode, hash }
}

fn found(paths: &[&str]) -> Observation {
    Observation::Files(paths.iter().map(|p| p.to_string()).collect())
}

#[test]
fn file_asks_for_the_matches_directly_under_the_root() {
    let ctx = files(CaptureMode::Copy, HashAlgorithm::Sha256);
    assert_eq!(
        ctx.run(&params(Some("/run")), &vec![]),
        Progress::Ask(Probe::Glob {
            root: "/project".to_string(),
            pattern: "*.txt".to_string(),
            max_depth: 1,
        })
    );
}

#[test]
fn file_hashes_then_copies_each_file_in_turn() {
    let ctx = files(CaptureMode::Copy, HashAlgorithm::Sha256);
    let p = params(Some("/run"));
    let mut seen = vec![found(&["/project/a.txt", "/project/sub/b.txt"])];
    assert_eq!(
        ctx.run(&p, &seen),
        Progress::Ask(Probe::ReadFile { path: "/project/a.txt".to_string() })
    );
    seen.push(Observation::Bytes(b"abc".to_vec()));
    assert_eq!(
        ctx.run(&p, &seen),
        Progress::Ask(Probe::CopyFile {
            from: "/project/a.txt".to_string(),
            to: "/run/a.txt".to_string(),
        })
    );
    seen.push(Observation::Done);
    assert_eq!(
        ctx.run(&p, &seen),
        Progress::Ask(Probe::ReadFile { path: "/project/sub/b.txt".to_string() })
    );
    seen.push(Observation::Bytes(Vec::new()));
    assert_eq!(
        ctx.run(&p, &seen),
        Progress::Ask(Probe::CopyFile {
            from: "/project/sub/b.txt".to_string(),
            to: "/run/b.txt".to_string(),
        })
    );
    seen.push(Observation::Done);
    assert_eq!(
        ctx.run(&p, &seen),
        Progress::Done(Ok(FileCaptured {
            files: vec![
                FileCapturedPerFile {
                    path: "/project/a.txt".to_string(),
                    copied_path: Some("/run/a.txt".to_string()),
                    hash: Some(format!("sha256:{}", ABC_SHA256)),
                },
                FileCapturedPerFile {
                    path: "/project/sub/b.txt".to_string(),
                    copied_path: Some("/run/b.txt".to_string()),
                    hash: Some(format!("sha256:{}", EMPTY_SHA256)),
                },
            ],
        }))
    );
}

#[test]
fn file_moves_without_hashing() {
    let ctx = files(CaptureMode::Move, HashAlgorithm::Unhashed);
    let p = params(Some("/run/"));
    let mut seen = vec![found(&["/project/a.txt"])];
    assert_eq!(
        ctx.run(&p, &seen),
        Progress::Ask(Probe::MoveFile {
            from: "/project/a.txt".to_string(),
            to: "/run/a.txt".to_string(),
        })
    );
    seen.push(Observation::Done);
    assert_eq!(
        ctx.run(&p, &seen),
        Progress::Done(Ok(FileCaptured {
            files: vec![FileCapturedPerFile {
                path: "/project/a.txt".to_string(),
                copied_path: Some("/run/a.txt".to_string()),
                hash: None,
            }],
        }))
    );
}

#[test]
fn file_that_stays_and_is_not_hashed_needs_nothing_more() {
    let ctx = files(CaptureMode::Keep, HashAlgorithm::Unhashed);
    let seen = vec![found(&["/project/a.txt", "/project/b.txt"])];
    assert_eq!(
        ctx.run(&params(None), &seen),
        Progress::Done(Ok(FileCaptured {
            files: vec![
                FileCapturedPerFile {
                    path: "/project/a.txt".to_string(),
                    copied_path: None,
                    hash: None,
                },
                FileCapturedPerFile {
                    path: "/project/b.txt".to_string(),
                    copied_path: None,
                    hash: None,
                },
            ],
        }))
    );
}

#[test]
fn file_with_no_matches_captures_nothing() {
    let ctx = files(CaptureMode::Copy, HashAlgorithm::Sha256);
    assert_eq!(
        ctx.run(&params(None), &vec![found(&[])]),
        Progress::Done(Ok(FileCaptured { files: vec![] }))
    );
}

#[test]
fn file_needs_a_run_dir_to_copy_into() {
    let ctx = files(CaptureMode::Copy, HashAlgorithm::Unhashed);
    assert_eq!(
        ctx.run(&params(None), &vec![found(&["/project/a.txt"])]),
        Progress::Done(Err(io(IoKind::InvalidInput, "run_dir is required for Copy or Move mode")))
    );
    // The hash comes first, as the contents are read before the transfer.
    let hashing = files(CaptureMode::Move, HashAlgorithm::Sha256);
    assert_eq!(
        hashing.run(&params(None), &vec![found(&["/project/a.txt"])]),
        Progress::Ask(Probe::ReadFile { path: "/project/a.txt".to_string() })
    );
    assert_eq!(
        hashing.run(
            &params(None),
            &vec![found(&["/project/a.txt"]), Observation::Bytes(vec![1])]
        ),
        Progress::Done(Err(io(IoKind::InvalidInput, "run_dir is required for Copy or Move mode")))
    );
}

#[test]
fn file_needs_a_file_name_to_copy() {
    let ctx = files(CaptureMode::Copy, HashAlgorithm::Unhashed);
    assert_eq!(
        ctx.run(&params(Some("/run")), &vec![found(&["/project/.."])]),
        Progress::Done(Err(io(IoKind::InvalidInput, "Invalid file name")))
    );
}

#[test]
fn file_hands_on_failures_of_the_host() {
    let ctx = files(CaptureMode::Copy, HashAlgorithm::Sha256);
    let p = params(Some("/run"));
    assert_eq!(
        ctx.run(&p, &vec![failed(IoKind::Other, "bad pattern")]),
        Progress::Done(Err(io(IoKind::Other, "bad pattern")))
    );
    assert_eq!(
        ctx.run(&p, &vec![found(&["/project/a.txt"]), failed(IoKind::NotFound, "no file")]),
        Progress::Done(Err(io(IoKind::NotFound, "no file")))
    );
    assert_eq!(
        ctx.run(
            &p,
            &vec![
                found(&["/project/a.txt"]),
                Observation::Bytes(vec![]),
                failed(IoKind::PermissionDenied, "read-only"),
            ]
        ),
        Progress::Done(Err(io(IoKind::PermissionDenied, "read-only")))
    );
    assert_eq!(
        ctx.run(&p, &vec![Observation::Done]),
        Progress::Done(Err(io(IoKind::InvalidData, "unexpected observation")))
    );
    assert_eq!(
        ctx.run(&p, &vec![found(&["/project/a.txt"]), Observation::Done]),
        Progress::Done(Err(io(IoKind::InvalidData, "unexpected observation")))
    );
    assert_eq!(
        ctx.run(
            &p,
            &vec![found(&["/project/a.txt"]), Observation::Bytes(vec![]), Observation::Changes(1)]
        ),
        Progress::Done(Err(io(IoKind::InvalidData, "unexpected observation")))
    );
}

#[test]
fn capture_file_counts_the_observations_it_used() {
    let ctx = files(CaptureMode::Copy, HashAlgorithm::Sha256);
    let seen = vec![
        Observation::Changes(7),
        Observation::Bytes(b"abc".to_vec()),
        Observation::Done,
        Observation::Changes(7),
    ];
    assert_eq!(
        ctx.capture_file(&"/p/x.bin".to_string(), &params(Some("/run")), &seen, 1),
        FileProgress::Captured {
            file: FileCapturedPerFile {
                path: "/p/x.bin".to_string(),
                copied_path: Some("/run/x.bin".to_string()),
                hash: Some(format!("sha256:{}", ABC_SHA256)),
            },
            used: 2,
        }
    );
    assert_eq!(
        ctx.capture_file(&"/p/x.bin".to_string(), &params(Some("/run")), &seen, 4),
        FileProgress::Ask(Probe::ReadFile { path: "/p/x.bin".to_string() })
    );
}

#[test]
fn file_document_has_its_fields() {
    let captured = FileCaptured {
        files: vec![
            FileCapturedPerFile {
                path: "/a".to_string(),
                copied_path: Some("/run/a".to_string()),
                hash: None,
            },
            FileCapturedPerFile { path: "/b".to_string(), copied_path: None, hash: Some("h".to_string()) },
        ],
    };
    assert_eq!(
        captured.to_json(),
        JsonValue::Object(vec![
            ("type".to_string(), text("file")),
            (
                "files".to_string(),
                JsonValue::Array(vec![
                    JsonValue::Object(vec![
                        ("path".to_string(), text("/a")),
                        ("copied_path".to_string(), text("/run/a")),
                        ("hash".to_string(), JsonValue::Null),
                    ]),
                    JsonValue::Object(vec![
                        ("path".to_string(), text("/b")),
                        ("copied_path".to_string(), JsonValue::Null),
                        ("hash".to_string(), text("h")),
                    ]),
                ]),
            ),
        ])
    );
}
