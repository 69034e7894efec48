//! The configuration of the engine: where the vault lies and which
//! providers each phase asks, and how a phase's list of provider
//! envelopes becomes a list of providers.
use crate::context::ContextFactory;
use crate::error::CoreResult;
use crate::json::JsonValue;
use crate::path::{join, joined};
use crate::registry::ContextRegistry;
use vstd::prelude::*;

verus! {

/// The whole configuration.
#[derive(Debug, Clone, PartialEq, Eq)]
pub struct CapsulaConfig {
    pub vault: VaultConfig,
    pub phase: PhaseConfig,
}

/// The vault: its name and where it lies.
#[derive(Debug, Clone, PartialEq, Eq)]
pub struct VaultConfig {
    pub name: String,
    pub path: String,
}

impl VaultConfig {
    /// Where a vault lies when the configuration does not say.
    pub open spec fn default_path(name: Seq<char>) -> Seq<char> {
        ".capsula/"@ + name
    }

    /// The vault with this name, at `path` where one is given and at its
    /// default place otherwise.
    pub fn new(name: String, path: Option<String>) -> (vault: VaultConfig)
        ensures
            vault.name@ == name@,
            vault.path@ == match path {
                Some(p) => p@,
                None => Self::default_path(name@),
            },
    {
        let path = match path {
            Some(p) => p,
            None => {
                let mut p = String::from_str(".capsula/");
                p.append(name.as_str());
                p
            },
        };
        VaultConfig { name, path }
    }

    /// The vault's directory for a project at `project_root`: the
    /// configured path, taken from the project's root unless it is absolute.
    pub fn vault_dir(&self, project_root: &str) -> (dir: String)
        ensures
            dir@ == joined(project_root@, self.path@),
    {
        join(project_root, self.path.as_str())
    }
}

/// What each phase asks.
#[derive(Debug, Clone, PartialEq, Eq, Default)]
pub struct PhaseConfig {
    pub pre: PrePhaseConfig,
    pub in_phase: InPhaseConfig,
    pub post: PostPhaseConfig,
}

/// The provider envelopes of one phase, in the order in which they
/// are declared.
#[derive(Debug, Clone, PartialEq, Eq, Default)]
pub struct ContextPhaseConfig {
    pub contexts: Vec<ContextEnvelope>,
}

/// The watchers of the phase in which the command runs.
#[derive(Debug, Clone, PartialEq, Eq, Default)]
pub struct WatcherPhaseConfig {
    pub watchers: Vec<WatcherSpec>,
}

/// The phase before the command.
pub type PrePhaseConfig = ContextPhaseConfig;

/// The phase after the command.
pub type PostPhaseConfig = ContextPhaseConfig;

/// The phase in which the command runs.
pub type InPhaseConfig = WatcherPhaseConfig;

/// One provider envelope: a type key, and whatever else was written
/// beside it, which only that type's factory understands.
#[derive(Debug, Clone, PartialEq, Eq)]
pub struct ContextEnvelope {
    pub ty: String,
    pub rest: JsonValue,
}

/// A watcher.
#[derive(Debug, Clone, PartialEq, Eq)]
pub enum WatcherSpec {
    Time(TimeWatcherSpec),
}

/// A watcher of elapsed time. It has no settings.
#[derive(Debug, Clone, PartialEq, Eq, Default)]
pub struct TimeWatcherSpec {}

/// Whether the registry can make a provider from the envelope.
pub open spec fn resolves<F: ContextFactory>(
    registry: ContextRegistry<F>,
    spec: ContextEnvelope,
    project_root: Seq<char>,
) -> bool {
    registry.resolves(spec.ty@, spec.rest@, project_root)
}

/// The place of the first envelope that the registry cannot resolve;
/// the length of the list where it can resolve them all.
pub open spec fn first_unresolved<F: ContextFactory>(
    registry: ContextRegistry<F>,
    specs: Seq<ContextEnvelope>,
    project_root: Seq<char>,
) -> int
    decreases specs.len(),
{
    if specs.len() == 0 {
        0
    } else if !resolves(registry, specs[0], project_root) {
        0
    } else {
        1 + first_unresolved(registry, specs.drop_first(), project_root)
    }
}

/// The first unresolved envelope is the one before which all
/// resolve and which does not itself.
pub proof fn lemma_first_unresolved<F: ContextFactory>(
    registry: ContextRegistry<F>,
    specs: Seq<ContextEnvelope>,
    project_root: Seq<char>,
    k: int,
)
    requires
        0 <= k <= specs.len(),
        forall|j: int| 0 <= j < k ==> resolves(registry, #[trigger] specs[j], project_root),
        k < specs.len() ==> !resolves(registry, specs[k], project_root),
    ensures
        first_unresolved(registry, specs, project_root) == k,
    decreases specs.len(),
{
    if specs.len() > 0 && k > 0 {
        let rest = specs.drop_first();
        assert forall|j: int| 0 <= j < k - 1 implies resolves(
            registry,
            #[trigger] rest[j],
            project_root,
        ) by {
            assert(rest[j] == specs[j + 1]);
        }
        lemma_first_unresolved(registry, rest, project_root, k - 1);
    }
}

/// A phase resolves as a whole or not at all: every envelope
/// resolves exactly when none is the first unresolved one, and otherwise
/// the first unresolved one really is unresolved and all before it resolve.
pub proof fn lemma_all_or_nothing<F: ContextFactory>(
    registry: ContextRegistry<F>,
    specs: Seq<ContextEnvelope>,
    project_root: Seq<char>,
)
    ensures
        0 <= first_unresolved(registry, specs, project_root) <= specs.len(),
        first_unresolved(registry, specs, project_root) == specs.len() <==> forall|j: int|
            0 <= j < specs.len() ==> resolves(registry, #[trigger] specs[j], project_root),
        first_unresolved(registry, specs, project_root) < specs.len() ==> !resolves(
            registry,
            specs[first_unresolved(registry, specs, project_root)],
            project_root,
        ),
        forall|j: int|
            0 <= j < first_unresolved(registry, specs, project_root) ==> resolves(
                registry,
                #[trigger] specs[j],
                project_root,
            ),
    decreases specs.len(),
{
    if specs.len() > 0 {
        let rest = specs.drop_first();
        lemma_all_or_nothing(registry, rest, project_root);
        let k = first_unresolved(registry, specs, project_root);
        if resolves(registry, specs[0], project_root) {
            assert forall|j: int| 0 <= j < k implies resolves(
                registry,
                #[trigger] specs[j],
                project_root,
            ) by {
                if j > 0 {
                    assert(specs[j] == rest[j - 1]);
                }
            }
            if k == specs.len() {
                assert forall|j: int| 0 <= j < specs.len() implies resolves(
                    registry,
                    #[trigger] specs[j],
                    project_root,
                ) by {}
            } else {
                assert(specs[k] == rest[k - 1]);
            }
        }
    }
}

/// Makes the providers of a phase, one for each envelope and in the
/// same order. Where an envelope cannot be resolved, because its type
/// is unknown or its factory rejects the configuration, the phase as a
/// whole fails with the error of the first such envelope, and no
/// provider is handed out.
pub fn build_contexts<F: ContextFactory>(
    phase: &ContextPhaseConfig,
    project_root: &str,
    registry: &ContextRegistry<F>,
) -> (made: CoreResult<Vec<F::Provider>>)
    requires
        registry.wf(),
    ensures
        made is Ok <==> first_unresolved(*registry, phase.contexts@, project_root@)
            == phase.contexts@.len(),
        made is Ok <==> forall|i: int|
            0 <= i < phase.contexts@.len() ==> resolves(
                *registry,
                #[trigger] phase.contexts@[i],
                project_root@,
            ),
        made matches Ok(providers) ==> providers@.len() == phase.contexts@.len() && forall|i: int|
            0 <= i < providers@.len() ==> registry.provides(
                phase.contexts@[i].ty@,
                phase.contexts@[i].rest@,
                project_root@,
                #[trigger] providers@[i],
            ),
        made matches Err(e) ==> {
            let k = first_unresolved(*registry, phase.contexts@, project_root@);
            &&& 0 <= k < phase.contexts@.len()
            &&& e@ == registry.refusal(
                phase.contexts@[k].ty@,
                phase.contexts@[k].rest@,
                project_root@,
            )
        },
{
    let specs = &phase.contexts;
    let mut providers: Vec<F::Provider> = Vec::new();
    let mut i: usize = 0;
    while i < specs.len()
        invariant
            i <= specs.len(),
            registry.wf(),
            specs == &phase.contexts,
            providers@.len() == i,
            forall|j: int| 0 <= j < i ==> resolves(*registry, #[trigger] specs@[j], project_root@),
            forall|j: int|
                0 <= j < i ==> registry.provides(
                    specs@[j].ty@,
                    specs@[j].rest@,
                    project_root@,
                    #[trigger] providers@[j],
                ),
        decreases specs.len() - i,
    {
        match registry.create_context(specs[i].ty.as_str(), &specs[i].rest, project_root) {
            Ok(provider) => {
                providers.push(provider);
            },
            Err(e) => {
                proof {
                    lemma_first_unresolved(*registry, specs@, project_root@, i as int);
                    lemma_all_or_nothing(*registry, specs@, project_root@);
                }
                return Err(e);
            },
        }
        i = i + 1;
    }
    proof {
        lemma_first_unresolved(*registry, specs@, project_root@, i as int);
    }
    Ok(providers)
}

} // verus!
