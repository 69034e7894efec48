//! The provider of the current working directory.
use crate::captured::Captured;
use crate::context::{
    failed, host_failure, unexpected, unexpected_observation, Context, ContextFactory,
    Observation, ObservationView, Outcome, Probe, ProbeView, Progress, RuntimeParams,
    RuntimeParamsView,
};
use crate::error::{CoreErrorView, CoreResult};
use crate::json::{lemma_field_views, Json, JsonValue};
use crate::views;
use vstd::prelude::*;

verus! {

/// The type key of this provider.
pub const KEY: &'static str = "cwd";

/// Captures the current working directory.
#[derive(Debug, Clone, Copy, PartialEq, Eq, Default)]
pub struct CwdContext;

/// The current working directory, as captured.
#[derive(Debug, Clone, PartialEq, Eq)]
pub struct CwdCaptured {
    pub cwd_abs: String,
}

/// The document for a captured working directory.
pub open spec fn cwd_json(cwd: Seq<char>) -> Json {
    Json::Object(seq![("type"@, Json::String("cwd"@)), ("cwd"@, Json::String(cwd))])
}

impl Captured for CwdCaptured {
    open spec fn json(&self) -> Json {
        cwd_json(self.cwd_abs@)
    }

    fn to_json(&self) -> (doc: JsonValue) {
        let mut fields: Vec<(String, JsonValue)> = Vec::new();
        fields.push((String::from_str("type"), JsonValue::string(KEY)));
        fields.push((String::from_str("cwd"), JsonValue::string(self.cwd_abs.as_str())));
        proof {
            lemma_field_views(fields@);
            assert(crate::json::field_views(fields@) =~= seq![
                ("type"@, Json::String("cwd"@)),
                ("cwd"@, Json::String(self.cwd_abs@)),
            ]);
        }
        JsonValue::object(fields)
    }
}

impl Context for CwdContext {
    type Output = CwdCaptured;

    /// Asks for the current directory, and captures the answer.
    open spec fn outcome(&self, params: RuntimeParamsView, seen: Seq<ObservationView>) -> Outcome {
        if seen.len() == 0 {
            Outcome::Ask(ProbeView::CurrentDir)
        } else {
            match seen[0] {
                ObservationView::Dir(dir) => Outcome::Captured(cwd_json(dir)),
                ObservationView::Failed { kind, message } => Outcome::Failed(
                    host_failure(kind, message),
                ),
                _ => Outcome::Failed(unexpected_observation()),
            }
        }
    }

    fn run(&self, params: &RuntimeParams, seen: &Vec<Observation>) -> (progress: Progress<
        CwdCaptured,
    >) {
        if seen.len() == 0 {
            return Progress::Ask(Probe::CurrentDir);
        }
        assert(views(seen@)[0] == seen@[0]@);
        match &seen[0] {
            Observation::Dir(dir) => {
                let captured = CwdCaptured { cwd_abs: dir.clone() };
                assert(captured.json() == cwd_json(dir@));
                Progress::Done(Ok(captured))
            },
            Observation::Failed { kind, message } => failed(*kind, message),
            _ => unexpected(),
        }
    }
}

/// Makes `CwdContext` providers. They have no settings.
#[derive(Debug, Clone, Copy, PartialEq, Eq, Default)]
pub struct CwdContextFactory;

impl ContextFactory for CwdContextFactory {
    type Provider = CwdContext;

    open spec fn spec_key(&self) -> Seq<char> {
        "cwd"@
    }

    open spec fn accepts(&self, config: Json, project_root: Seq<char>) -> bool {
        true
    }

    open spec fn rejection(&self, config: Json, project_root: Seq<char>) -> CoreErrorView {
        unexpected_observation()
    }

    open spec fn makes(&self, config: Json, project_root: Seq<char>, provider: CwdContext) -> bool {
        true
    }

    fn key(&self) -> (key: &'static str) {
        KEY
    }

    fn create_context(&self, config: &JsonValue, project_root: &str) -> (made: CoreResult<
        CwdContext,
    >) {
        Ok(CwdContext)
    }
}

/// The factory of this provider.
pub fn create_factory() -> (factory: CwdContextFactory)
    ensures
        factory.spec_key() == "cwd"@,
{
    CwdContextFactory
}

} // verus!
