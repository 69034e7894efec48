use capsula::builtin::{standard_registry, BuiltinContext, BuiltinFactory};
use capsula::config::{build_contexts, ContextEnvelope, ContextPhaseConfig, VaultConfig};
use capsula::context::{ContextPhase, Observation, Probe, RuntimeParams};
use capsula::cwd::CwdContext;
use capsula::error::{CoreError, IoKind, RegistryError};
use capsula::file::{CaptureMode, FileContext, FileContextFactory, HashAlgorithm};
use capsula::git::GitContext;
use capsula::json::JsonValue;
use capsula::pipeline::{run_contexts, PhaseFailure, PhaseProgress};
use capsula::registry::ContextRegistry;

fn text(s: &str) -> JsonValue {
    JsonValue::String(s.to_string())
}

fn envelope(ty: &str, fields: &[(&str, JsonValue)]) -> ContextEnvelope {
    ContextEnvelope {
        ty: ty.to_string(),
        rest: JsonValue::Object(
            fields.iter().map(|(k, v)| (k.to_string(), v.duplicate())).collect(),
        ),
    }
}

fn params() -> RuntimeParams {
    RuntimeParams {
        phase: ContextPhase::Pre,
        run_dir: Some("/vault/run".to_string()),
        project_root: "/project".to_string(),
    }
}

fn git(name: &str) -> BuiltinContext {
    BuiltinContext::Git(GitContext {
        name: name.to_string(),
        working_dir: "/project".to_string(),
        allow_dirty: true,
    })
}

fn cwd_doc(dir: &str) -> JsonValue {
    JsonValue::Object(vec![("type".to_string(), text("cwd")), ("cwd".to_string(), text(dir))])
}

fn git_doc(name: &str, sha: &str) -> JsonValue {
    JsonValue::Object(vec![
        ("type".to_string(), text("git")),
        ("name".to_string(), text(name)),
        ("working_dir".to_string(), text("/project")),
        ("sha".to_string(), text(sha)),
    ])
}

#[test]
fn build_contexts_keeps_the_declared_order() {
    let phase = ContextPhaseConfig {
        contexts: vec![
            envelope("git", &[("path", text("b")), ("name", text("second"))]),
            envelope("cwd", &[]),
            envelope("git", &[("path", text("a")), ("name", text("first"))]),
        ],
    };
    let providers = build_contexts(&phase, "/project", &standard_registry()).unwrap();
    assert_eq!(
        providers,
        vec![
            BuiltinContext::Git(GitContext {
                name: "second".to_string(),
                working_dir: "/project/b".to_string(),
                allow_dirty: false,
            }),
            BuiltinContext::Cwd(CwdContext),
            BuiltinContext::Git(GitContext {
                name: "first".to_string(),
                working_dir: "/project/a".to_string(),
                allow_dirty: false,
            }),
        ]
    );
}

#[test]
fn build_contexts_of_an_empty_phase() {
    let providers =
        build_contexts(&ContextPhaseConfig::default(), "/project", &standard_registry()).unwrap();
    assert!(providers.is_empty());
}

#[test]
fn build_contexts_fails_as_a_whole_on_an_unknown_type() {
    let phase = ContextPhaseConfig {
        contexts: vec![
            envelope("cwd", &[]),
            envelope("env", &[("key", text("PATH"))]),
            envelope("nope", &[]),
        ],
    };
    assert_eq!(
        build_contexts(&phase, "/project", &standard_registry()),
        Err(CoreError::Registry(RegistryError::TypeNotFound("env".to_string())))
    );
}

#[test]
fn build_contexts_fails_as_a_whole_on_a_bad_configuration() {
    let phase = ContextPhaseConfig {
        contexts: vec![envelope("cwd", &[]), envelope("git", &[]), envelope("cwd", &[])],
    };
    assert_eq!(
        build_contexts(&phase, "/project", &standard_registry()),
        Err(CoreError::Io {
            path: None,
            kind: IoKind::InvalidData,
            message: "missing field `path`".to_string(),
        })
    );
}

#[test]
fn build_contexts_with_a_registry_of_one_s_own() {
    let mut registry = ContextRegistry::new();
    registry.register(BuiltinFactory::File(FileContextFactory)).unwrap();
    let phase = ContextPhaseConfig {
        contexts: vec![envelope("file", &[("glob", text("*.md")), ("mode", text("none"))])],
    };
    assert_eq!(
        build_contexts(&phase, "/project", &registry),
        Ok(vec![BuiltinContext::File(FileContext {
            glob: "*.md".to_string(),
            mode: CaptureMode::Keep,
            hash: HashAlgorithm::Sha256,
        })])
    );
}

#[test]
fn run_contexts_asks_the_first_provider_first() {
    let providers = vec![BuiltinContext::Cwd(CwdContext), git("repo")];
    assert_eq!(
        run_contexts(&providers, &params(), &vec![]),
        PhaseProgress::Ask { index: 0, probe: Probe::CurrentDir }
    );
}

#[test]
fn run_contexts_moves_on_when_a_provider_has_captured() {
    let providers = vec![BuiltinContext::Cwd(CwdContext), git("repo")];
    let logs = vec![vec![Observation::Dir("/here".to_string())]];
    assert_eq!(
        run_contexts(&providers, &params(), &logs),
        PhaseProgress::Ask { index: 1, probe: Probe::GitHead { path: "/project".to_string() } }
    );
}

#[test]
fn run_contexts_hands_out_documents_in_the_providers_order() {
    let providers = vec![git("b"), BuiltinContext::Cwd(CwdContext), git("a")];
    let logs = vec![
        vec![Observation::Head(Some("1111".to_string()))],
        vec![Observation::Dir("/here".to_string())],
        vec![Observation::Head(Some("2222".to_string()))],
    ];
    assert_eq!(
        run_contexts(&providers, &params(), &logs),
        PhaseProgress::Done(Ok(vec![git_doc("b", "1111"), cwd_doc("/here"), git_doc("a", "2222")]))
    );
}

#[test]
fn run_contexts_of_no_providers() {
    let providers: Vec<BuiltinContext> = vec![];
    assert_eq!(run_contexts(&providers, &params(), &vec![]), PhaseProgress::Done(Ok(vec![])));
}

#[test]
fn run_contexts_fails_fast() {
    let providers = vec![BuiltinContext::Cwd(CwdContext), git("repo"), BuiltinContext::Cwd(CwdContext)];
    let failure = Observation::Failed { kind: IoKind::Other, message: "no repository".to_string() };
    let logs = vec![
        vec![Observation::Dir("/here".to_string())],
        vec![failure],
        vec![Observation::Dir("/never looked at".to_string())],
    ];
    let expected = PhaseProgress::Done(Err(PhaseFailure {
        index: 1,
        error: CoreError::Io {
            path: None,
            kind: IoKind::Other,
            message: "no repository".to_string(),
        },
    }));
    assert_eq!(run_contexts(&providers, &params(), &logs), expected);
    // What is held for later providers makes no difference.
    let shorter = vec![logs[0].clone(), logs[1].clone()];
    assert_eq!(run_contexts(&providers, &params(), &shorter), expected);
}

#[test]
fn a_host_can_drive_a_phase_to_its_end() {
    let phase = ContextPhaseConfig {
        contexts: vec![
            envelope("cwd", &[]),
            envelope("git", &[("path", text("/repo")), ("name", text("main"))]),
        ],
    };
    let providers = build_contexts(&phase, "/project", &standard_registry()).unwrap();
    let mut logs: Vec<Vec<Observation>> = vec![Vec::new(); providers.len()];
    let mut asked = Vec::new();
    let documents = loop {
        match run_contexts(&providers, &params(), &logs) {
            PhaseProgress::Ask { index, probe } => {
                let answer = match &probe {
                    Probe::CurrentDir => Observation::Dir("/somewhere".to_string()),
                    Probe::GitHead { .. } => Observation::Head(Some("abc123".to_string())),
                    Probe::GitChanges { .. } => Observation::Changes(0),
                    _ => Observation::Failed {
                        kind: IoKind::Other,
                        message: "not expected".to_string(),
                    },
                };
                asked.push((index, probe));
                logs[index].push(answer);
            }
            PhaseProgress::Done(result) => break result.unwrap(),
        }
    };
    assert_eq!(
        asked,
        vec![
            (0, Probe::CurrentDir),
            (1, Probe::GitHead { path: "/repo".to_string() }),
            (1, Probe::GitChanges { path: "/repo".to_string() }),
        ]
    );
    assert_eq!(
        documents,
        vec![
            cwd_doc("/somewhere"),
            JsonValue::Object(vec![
                ("type".to_string(), text("git")),
                ("name".to_string(), text("main")),
                ("working_dir".to_string(), text("/repo")),
                ("sha".to_string(), text("abc123")),
            ]),
        ]
    );
}

#[test]
fn vault_config_with_a_path() {
    let vault =
        VaultConfig::new("my_vault".to_string(), Some("/custom/path/to/vault".to_string()));
    assert_eq!(vault.name, "my_vault");
    assert_eq!(vault.path, "/custom/path/to/vault");
    assert_eq!(vault.vault_dir("/project"), "/custom/path/to/vault");
}

#[test]
fn vault_config_without_a_path() {
    let vault = VaultConfig::new("test_vault".to_string(), None);
    assert_eq!(vault.name, "test_vault");
    assert_eq!(vault.path, ".capsula/test_vault");
    assert_eq!(vault.vault_dir("/project"), "/project/.capsula/test_vault");
}
