//! The providers that come with the engine, gathered under one type so that
//! one registry can hold their factories, and the registry that holds them.
use crate::context::{
    ContextErased, ContextFactory, Observation, ObservationView, Outcome, Progress, RuntimeParams,
    RuntimeParamsView,
};
use crate::cwd::{CwdContext, CwdContextFactory};
use crate::error::{CoreErrorView, CoreResult};
use crate::file::{FileContext, FileContextFactory};
use crate::git::{GitContext, GitContextFactory};
use crate::json::{Json, JsonValue};
use crate::registry::{ContextRegistry, RegistryBuilder};
use vstd::pervasive::unreached;
use vstd::prelude::*;

verus! {

/// One of the providers that come with the engine.
#[derive(Debug, Clone, PartialEq, Eq)]
pub enum BuiltinContext {
    Cwd(CwdContext),
    Git(GitContext),
    File(FileContext),
}

impl ContextErased for BuiltinContext {
    open spec fn erased_outcome(
        &self,
        params: RuntimeParamsView,
        seen: Seq<ObservationView>,
    ) -> Outcome {
        match self {
            BuiltinContext::Cwd(provider) => provider.erased_outcome(params, seen),
            BuiltinContext::Git(provider) => provider.erased_outcome(params, seen),
            BuiltinContext::File(provider) => provider.erased_outcome(params, seen),
        }
    }

    fn run_erased(&self, params: &RuntimeParams, seen: &Vec<Observation>) -> (progress: Progress<
        JsonValue,
    >) {
        match self {
            BuiltinContext::Cwd(provider) => provider.run_erased(params, seen),
            BuiltinContext::Git(provider) => provider.run_erased(params, seen),
            BuiltinContext::File(provider) => provider.run_erased(params, seen),
        }
    }
}

/// The factory of one of the providers that come with the engine.
#[derive(Debug, Clone, Copy, PartialEq, Eq)]
pub enum BuiltinFactory {
    Cwd(CwdContextFactory),
    Git(GitContextFactory),
    File(FileContextFactory),
}

impl ContextFactory for BuiltinFactory {
    type Provider = BuiltinContext;

    open spec fn spec_key(&self) -> Seq<char> {
        match self {
            BuiltinFactory::Cwd(factory) => factory.spec_key(),
            BuiltinFactory::Git(factory) => factory.spec_key(),
            BuiltinFactory::File(factory) => factory.spec_key(),
        }
    }

    open spec fn accepts(&self, config: Json, project_root: Seq<char>) -> bool {
        match self {
            BuiltinFactory::Cwd(factory) => factory.accepts(config, project_root),
            BuiltinFactory::Git(factory) => factory.accepts(config, project_root),
            BuiltinFactory::File(factory) => factory.accepts(config, project_root),
        }
    }

    open spec fn rejection(&self, config: Json, project_root: Seq<char>) -> CoreErrorView {
        match self {
            BuiltinFactory::Cwd(factory) => factory.rejection(config, project_root),
            BuiltinFactory::Git(factory) => factory.rejection(config, project_root),
            BuiltinFactory::File(factory) => factory.rejection(config, project_root),
        }
    }

    /// The provider is of the factory's own kind, and what that factory
    /// makes.
    open spec fn makes(
        &self,
        config: Json,
        project_root: Seq<char>,
        provider: BuiltinContext,
    ) -> bool {
        match (self, provider) {
            (BuiltinFactory::Cwd(factory), BuiltinContext::Cwd(p)) => factory.makes(
                config,
                project_root,
                p,
            ),
            (BuiltinFactory::Git(factory), BuiltinContext::Git(p)) => factory.makes(
                config,
                project_root,
                p,
            ),
            (BuiltinFactory::File(factory), BuiltinContext::File(p)) => factory.makes(
                config,
                project_root,
                p,
            ),
            _ => false,
        }
    }

    fn key(&self) -> (key: &'static str) {
        match self {
            BuiltinFactory::Cwd(factory) => factory.key(),
            BuiltinFactory::Git(factory) => factory.key(),
            BuiltinFactory::File(factory) => factory.key(),
        }
    }

    fn create_context(&self, config: &JsonValue, project_root: &str) -> (made: CoreResult<
        BuiltinContext,
    >) {
        match self {
            BuiltinFactory::Cwd(factory) => match factory.create_context(config, project_root) {
                Ok(provider) => Ok(BuiltinContext::Cwd(provider)),
                Err(e) => Err(e),
            },
            BuiltinFactory::Git(factory) => match factory.create_context(config, project_root) {
                Ok(provider) => Ok(BuiltinContext::Git(provider)),
                Err(e) => Err(e),
            },
            BuiltinFactory::File(factory) => match factory.create_context(config, project_root) {
                Ok(provider) => Ok(BuiltinContext::File(provider)),
                Err(e) => Err(e),
            },
        }
    }
}

/// The keys of the standard registry.
pub open spec fn standard_keys() -> Seq<Seq<char>> {
    seq!["cwd"@, "git"@]
}

/// The registry of the providers that are part of every installation: the
/// working directory and the repository's revision, in this order.
pub fn standard_registry() -> (registry: ContextRegistry<BuiltinFactory>)
    ensures
        registry.wf(),
        registry.keys() == standard_keys(),
        registry.factories() == seq![
            BuiltinFactory::Cwd(CwdContextFactory),
            BuiltinFactory::Git(GitContextFactory),
        ],
{
    proof {
        reveal_strlit("cwd");
        reveal_strlit("git");
    }
    let builder = RegistryBuilder::new();
    let ghost none = builder.so_far().factories();
    let builder = match builder.with_factory(BuiltinFactory::Cwd(crate::cwd::create_factory())) {
        Ok(builder) => builder,
        Err(_) => unreached(),
    };
    assert(builder.so_far().keys() =~= seq!["cwd"@]);
    assert(!builder.so_far().keys().contains("git"@)) by {
        assert("cwd"@[0] != "git"@[0]);
    }
    let builder = match builder.with_factory(BuiltinFactory::Git(crate::git::create_factory())) {
        Ok(builder) => builder,
        Err(_) => unreached(),
    };
    let registry = builder.build();
    assert(registry.keys() =~= standard_keys());
    assert(registry.factories() =~= seq![
        BuiltinFactory::Cwd(CwdContextFactory),
        BuiltinFactory::Git(GitContextFactory),
    ]);
    registry
}

/// The registry that the command-line driver starts from.
pub fn create_registry() -> (registry: ContextRegistry<BuiltinFactory>)
    ensures
        registry.wf(),
        registry.keys() == standard_keys(),
        registry.factories() == seq![
            BuiltinFactory::Cwd(CwdContextFactory),
            BuiltinFactory::Git(GitContextFactory),
        ],
{
    standard_registry()
}

} // verus!
