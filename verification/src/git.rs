//! The provider of a repository's revision.
use crate::captured::Captured;
use crate::context::{
    failed, host_failure, unexpected, unexpected_observation, Context, ContextFactory,
    Observation, ObservationView, Outcome, Probe, ProbeView, Progress, RuntimeParams,
    RuntimeParamsView,
};
use crate::error::{other_failure, CoreError, CoreErrorView, CoreResult, IoKind};
use crate::json::{lemma_field_views, Json, JsonValue};
use crate::path::{join, joined};
use crate::views;
use vstd::prelude::*;

verus! {

/// The type key of this provider.
pub const KEY: &'static str = "git";

/// Captures the commit that a repository's `HEAD` points at.
#[derive(Debug, Clone, PartialEq, Eq, Default)]
pub struct GitContext {
    /// A name for the repository, for the record.
    pub name: String,
    /// Where to look for the repository; empty for the current directory.
    pub working_dir: String,
    /// Whether uncommitted changes are tolerated.
    pub allow_dirty: bool,
}

/// The revision of a repository, as captured.
#[derive(Debug, Clone, PartialEq, Eq)]
pub struct GitCaptured {
    pub name: String,
    pub working_dir: String,
    pub sha: String,
}

/// The document for a captured revision.
pub open spec fn git_json(name: Seq<char>, working_dir: Seq<char>, sha: Seq<char>) -> Json {
    Json::Object(
        seq![
            ("type"@, Json::String("git"@)),
            ("name"@, Json::String(name)),
            ("working_dir"@, Json::String(working_dir)),
            ("sha"@, Json::String(sha)),
        ],
    )
}

impl Captured for GitCaptured {
    open spec fn json(&self) -> Json {
        git_json(self.name@, self.working_dir@, self.sha@)
    }

    fn to_json(&self) -> (doc: JsonValue) {
        let mut fields: Vec<(String, JsonValue)> = Vec::new();
        fields.push((String::from_str("type"), JsonValue::string(KEY)));
        fields.push((String::from_str("name"), JsonValue::string(self.name.as_str())));
        fields.push(
            (String::from_str("working_dir"), JsonValue::string(self.working_dir.as_str())),
        );
        fields.push((String::from_str("sha"), JsonValue::string(self.sha.as_str())));
        proof {
            lemma_field_views(fields@);
            assert(crate::json::field_views(fields@) =~= seq![
                ("type"@, Json::String("git"@)),
                ("name"@, Json::String(self.name@)),
                ("working_dir"@, Json::String(self.working_dir@)),
                ("sha"@, Json::String(self.sha@)),
            ]);
        }
        JsonValue::object(fields)
    }
}

/// The error for a `HEAD` that does not point at a commit directly.
pub open spec fn no_head_target() -> CoreErrorView {
    other_failure("Failed to get HEAD target"@)
}

/// The error for a repository with changes that are not committed.
pub open spec fn uncommitted_changes() -> CoreErrorView {
    other_failure("Repository has uncommitted changes"@)
}

/// The last step: the repository has to be clean. The number of entries in
/// its status list is asked for, and anything but none is refused.
pub open spec fn check_clean(
    name: Seq<char>,
    repo_path: Seq<char>,
    sha: Seq<char>,
    seen: Seq<ObservationView>,
) -> Outcome {
    if seen.len() == 0 {
        Outcome::Ask(ProbeView::GitChanges { path: repo_path })
    } else {
        match seen[0] {
            ObservationView::Changes(n) => if n == 0 {
                Outcome::Captured(git_json(name, repo_path, sha))
            } else {
                Outcome::Failed(uncommitted_changes())
            },
            ObservationView::Failed { kind, message } => Outcome::Failed(
                host_failure(kind, message),
            ),
            _ => Outcome::Failed(unexpected_observation()),
        }
    }
}

/// The step before: the commit that `HEAD` points at is asked for. A
/// provider that tolerates changes is done with it.
pub open spec fn read_head(
    name: Seq<char>,
    repo_path: Seq<char>,
    allow_dirty: bool,
    seen: Seq<ObservationView>,
) -> Outcome {
    if seen.len() == 0 {
        Outcome::Ask(ProbeView::GitHead { path: repo_path })
    } else {
        match seen[0] {
            ObservationView::Head(Some(sha)) => if allow_dirty {
                Outcome::Captured(git_json(name, repo_path, sha))
            } else {
                check_clean(name, repo_path, sha, seen.skip(1))
            },
            ObservationView::Head(None) => Outcome::Failed(no_head_target()),
            ObservationView::Failed { kind, message } => Outcome::Failed(
                host_failure(kind, message),
            ),
            _ => Outcome::Failed(unexpected_observation()),
        }
    }
}

impl GitContext {
    /// Asks for `HEAD` and, unless changes are tolerated, for the status
    /// list, with the observations from `at` on.
    fn inspect(&self, repo_path: &String, seen: &Vec<Observation>, at: usize) -> (progress:
        Progress<GitCaptured>)
        requires
            at <= seen@.len(),
        ensures
            crate::context::outcome_of(progress) == read_head(
                self.name@,
                repo_path@,
                self.allow_dirty,
                views(seen@).skip(at as int),
            ),
    {
        let ghost rest = views(seen@).skip(at as int);
        if at >= seen.len() {
            return Progress::Ask(Probe::GitHead { path: repo_path.clone() });
        }
        assert(rest[0] == seen@[at as int]@);
        let sha = match &seen[at] {
            Observation::Head(Some(sha)) => sha,
            Observation::Head(None) => {
                return Progress::Done(
                    Err(CoreError::io(IoKind::Other, "Failed to get HEAD target")),
                );
            },
            Observation::Failed { kind, message } => {
                return failed(*kind, message);
            },
            _ => {
                return unexpected();
            },
        };
        let captured = GitCaptured {
            name: self.name.clone(),
            working_dir: repo_path.clone(),
            sha: sha.clone(),
        };
        assert(captured.json() == git_json(self.name@, repo_path@, sha@));
        if self.allow_dirty {
            return Progress::Done(Ok(captured));
        }
        assert(rest.skip(1) =~= views(seen@).skip(at + 1));
        if at + 1 >= seen.len() {
            return Progress::Ask(Probe::GitChanges { path: repo_path.clone() });
        }
        assert(rest.skip(1)[0] == seen@[at + 1]@);
        match &seen[at + 1] {
            Observation::Changes(n) => if *n == 0 {
                Progress::Done(Ok(captured))
            } else {
                Progress::Done(
                    Err(CoreError::io(IoKind::Other, "Repository has uncommitted changes")),
                )
            },
            Observation::Failed { kind, message } => failed(*kind, message),
            _ => unexpected(),
        }
    }
}

impl Context for GitContext {
    type Output = GitCaptured;

    /// Looks for the repository from the working directory, or from the
    /// current directory, which has to be asked for first, where none is
    /// set; then reads its `HEAD` and checks that it is clean.
    open spec fn outcome(&self, params: RuntimeParamsView, seen: Seq<ObservationView>) -> Outcome {
        if self.working_dir@.len() > 0 {
            read_head(self.name@, self.working_dir@, self.allow_dirty, seen)
        } else if seen.len() == 0 {
            Outcome::Ask(ProbeView::CurrentDir)
        } else {
            match seen[0] {
                ObservationView::Dir(dir) => read_head(
                    self.name@,
                    dir,
                    self.allow_dirty,
                    seen.skip(1),
                ),
                ObservationView::Failed { kind, message } => Outcome::Failed(
                    host_failure(kind, message),
                ),
                _ => Outcome::Failed(unexpected_observation()),
            }
        }
    }

    fn run(&self, params: &RuntimeParams, seen: &Vec<Observation>) -> (progress: Progress<
        GitCaptured,
    >) {
        if self.working_dir.as_str().unicode_len() > 0 {
            assert(views(seen@).skip(0) =~= views(seen@));
            return self.inspect(&self.working_dir, seen, 0);
        }
        if seen.len() == 0 {
            return Progress::Ask(Probe::CurrentDir);
        }
        assert(views(seen@)[0] == seen@[0]@);
        match &seen[0] {
            Observation::Dir(dir) => self.inspect(dir, seen, 1),
            Observation::Failed { kind, message } => failed(*kind, message),
            _ => unexpected(),
        }
    }
}

/// The settings of a `GitContext`.
#[derive(Debug, Clone, PartialEq, Eq)]
pub struct GitContextConfig {
    /// A name for the repository; empty where none is given.
    pub name: String,
    /// Where to look for the repository.
    pub path: String,
    /// Whether uncommitted changes are tolerated; they are not unless this
    /// is set.
    pub allow_dirty: bool,
}

/// The settings of a `GitContext`, as mathematics sees them.
pub struct GitContextConfigView {
    pub name: Seq<char>,
    pub path: Seq<char>,
    pub allow_dirty: bool,
}

impl View for GitContextConfig {
    type V = GitContextConfigView;

    open spec fn view(&self) -> GitContextConfigView {
        GitContextConfigView { name: self.name@, path: self.path@, allow_dirty: self.allow_dirty }
    }
}

/// The settings that a configuration holds: a `path`, which has to be
/// there, and `name` and `allow_dirty`, which need not. The first field of
/// the wrong kind, or the missing path, is the error.
pub open spec fn git_settings(config: Json) -> Result<GitContextConfigView, CoreErrorView> {
    match config.optional_text("name"@, ""@) {
        Err(e) => Err(e),
        Ok(name) => match config.required_text("path"@) {
            Err(e) => Err(e),
            Ok(path) => match config.optional_bool("allow_dirty"@, false) {
                Err(e) => Err(e),
                Ok(allow_dirty) => Ok(GitContextConfigView { name, path, allow_dirty }),
            },
        },
    }
}

impl GitContextConfig {
    /// Reads the settings from a configuration.
    pub fn from_json(config: &JsonValue) -> (r: CoreResult<GitContextConfig>)
        ensures
            match r {
                Ok(settings) => git_settings(config@) == Ok::<
                    GitContextConfigView,
                    CoreErrorView,
                >(settings@),
                Err(e) => git_settings(config@) == Err::<GitContextConfigView, CoreErrorView>(e@),
            },
    {
        proof {
            reveal_strlit("");
        }
        let name = match config.optional_text("name", "") {
            Ok(name) => name,
            Err(e) => {
                return Err(e);
            },
        };
        let path = match config.required_text("path") {
            Ok(path) => path,
            Err(e) => {
                return Err(e);
            },
        };
        let allow_dirty = match config.optional_bool("allow_dirty", false) {
            Ok(allow_dirty) => allow_dirty,
            Err(e) => {
                return Err(e);
            },
        };
        Ok(GitContextConfig { name, path, allow_dirty })
    }
}

/// Makes `GitContext` providers.
#[derive(Debug, Clone, Copy, PartialEq, Eq, Default)]
pub struct GitContextFactory;

impl ContextFactory for GitContextFactory {
    type Provider = GitContext;

    open spec fn spec_key(&self) -> Seq<char> {
        "git"@
    }

    open spec fn accepts(&self, config: Json, project_root: Seq<char>) -> bool {
        git_settings(config) is Ok
    }

    open spec fn rejection(&self, config: Json, project_root: Seq<char>) -> CoreErrorView {
        git_settings(config)->Err_0
    }

    /// The provider has the configured name and tolerance, and looks for
    /// the repository at the configured path, taken from the project's root
    /// unless it is absolute.
    open spec fn makes(&self, config: Json, project_root: Seq<char>, provider: GitContext) -> bool {
        git_settings(config) matches Ok(settings) && {
            &&& provider.name@ == settings.name
            &&& provider.working_dir@ == joined(project_root, settings.path)
            &&& provider.allow_dirty == settings.allow_dirty
        }
    }

    fn key(&self) -> (key: &'static str) {
        KEY
    }

    fn create_context(&self, config: &JsonValue, project_root: &str) -> (made: CoreResult<
        GitContext,
    >) {
        match GitContextConfig::from_json(config) {
            Err(e) => Err(e),
            Ok(settings) => Ok(
                GitContext {
                    working_dir: join(project_root, settings.path.as_str()),
                    name: settings.name,
                    allow_dirty: settings.allow_dirty,
                },
            ),
        }
    }
}

/// The factory of this provider.
pub fn create_factory() -> (factory: GitContextFactory)
    ensures
        factory.spec_key() == "git"@,
{
    GitContextFactory
}

} // verus!
