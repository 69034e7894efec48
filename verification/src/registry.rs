//! The registry: which factory answers to which type key.
use crate::context::ContextFactory;
use crate::error::{CoreError, CoreErrorView, CoreResult, RegistryError, RegistryErrorView};
use crate::json::{Json, JsonValue};
use crate::text::same_text;
use vstd::prelude::*;

verus! {

/// The keys of a list of factories, in the same order.
pub open spec fn keys_of<F: ContextFactory>(factories: Seq<F>) -> Seq<Seq<char>> {
    Seq::new(factories.len(), |i: int| factories[i].spec_key())
}

/// What registering `key` does to a list of registered keys: it goes to
/// the end, unless it is there already.
pub open spec fn register_key(keys: Seq<Seq<char>>, key: Seq<char>) -> Result<
    Seq<Seq<char>>,
    RegistryErrorView,
> {
    if keys.contains(key) {
        Err(RegistryErrorView::AlreadyRegistered(key))
    } else {
        Ok(keys.push(key))
    }
}

/// What registering `offered`, one after another, does to a list of
/// registered keys. The first refusal ends it.
pub open spec fn register_keys(keys: Seq<Seq<char>>, offered: Seq<Seq<char>>) -> Result<
    Seq<Seq<char>>,
    RegistryErrorView,
>
    decreases offered.len(),
{
    if offered.len() == 0 {
        Ok(keys)
    } else {
        match register_keys(keys, offered.drop_last()) {
            Ok(so_far) => register_key(so_far, offered.last()),
            Err(e) => Err(e),
        }
    }
}

/// A registry of factories. No two of them answer to the same key.
pub struct ContextRegistry<F: ContextFactory> {
    factories: Vec<F>,
}

impl<F: ContextFactory> ContextRegistry<F> {
    /// The registered factories, in the order of their registration.
    pub closed spec fn factories(&self) -> Seq<F> {
        self.factories@
    }

    /// The registered keys, in the order of their registration.
    pub open spec fn keys(&self) -> Seq<Seq<char>> {
        keys_of(self.factories())
    }

    /// The registry's invariant: no key is registered twice.
    pub open spec fn wf(&self) -> bool {
        self.keys().no_duplicates()
    }

    /// Whether a factory is registered under `key`.
    pub open spec fn has(&self, key: Seq<char>) -> bool {
        self.keys().contains(key)
    }

    /// The factory registered under `key`.
    pub open spec fn factory_for(&self, key: Seq<char>) -> F
        recommends
            self.has(key),
    {
        self.factories()[self.keys().index_of(key)]
    }

    /// Whether the registry can make a provider of type `key` from this
    /// configuration: a factory answers to the key and accepts it.
    pub open spec fn resolves(&self, key: Seq<char>, config: Json, project_root: Seq<char>) -> bool {
        self.has(key) && self.factory_for(key).accepts(config, project_root)
    }

    /// The error with which the registry refuses what it cannot resolve:
    /// the type is unknown, or its factory rejects the configuration.
    pub open spec fn refusal(
        &self,
        key: Seq<char>,
        config: Json,
        project_root: Seq<char>,
    ) -> CoreErrorView {
        if self.has(key) {
            self.factory_for(key).rejection(config, project_root)
        } else {
            CoreErrorView::Registry(RegistryErrorView::TypeNotFound(key))
        }
    }

    /// Whether `provider` is what the factory registered under `key` makes
    /// from this configuration.
    pub open spec fn provides(
        &self,
        key: Seq<char>,
        config: Json,
        project_root: Seq<char>,
        provider: F::Provider,
    ) -> bool {
        self.has(key) && self.factory_for(key).makes(config, project_root, provider)
    }

    /// A registry without factories.
    pub fn new() -> (registry: Self)
        ensures
            registry.wf(),
            registry.factories() == Seq::<F>::empty(),
            registry.keys() == Seq::<Seq<char>>::empty(),
    {
        let registry = ContextRegistry { factories: Vec::new() };
        assert(registry.keys() =~= Seq::<Seq<char>>::empty());
        registry
    }

    /// The place of the factory registered under `key`, if there is one.
    fn position(&self, key: &str) -> (at: Option<usize>)
        requires
            self.wf(),
        ensures
            match at {
                Some(i) => i < self.keys().len() && self.keys()[i as int] == key@
                    && self.keys().index_of(key@) == i,
                None => !self.has(key@),
            },
    {
        let mut i: usize = 0;
        while i < self.factories.len()
            invariant
                i <= self.factories.len(),
                self.keys().no_duplicates(),
                forall|j: int| 0 <= j < i ==> self.keys()[j] != key@,
            decreases self.factories.len() - i,
        {
            if same_text(self.factories[i].key(), key) {
                proof {
                    let j = self.keys().index_of(key@);
                    assert(self.keys()[i as int] == key@);
                    assert(self.keys().contains(key@));
                    assert(0 <= j < self.keys().len() && self.keys()[j] == key@);
                }
                return Some(i);
            }
            i = i + 1;
        }
        None
    }

    /// Registers a factory under its key. A key that is taken is refused,
    /// and the registry stays as it was.
    pub fn register(&mut self, factory: F) -> (r: Result<(), RegistryError>)
        requires
            old(self).wf(),
        ensures
            final(self).wf(),
            old(self).has(factory.spec_key()) ==> (r matches Err(e)
                && e@ == RegistryErrorView::AlreadyRegistered(factory.spec_key())
                && final(self).factories() == old(self).factories()),
            !old(self).has(factory.spec_key()) ==> r is Ok
                && final(self).factories() == old(self).factories().push(factory),
            match register_key(old(self).keys(), factory.spec_key()) {
                Ok(keys) => r is Ok && final(self).keys() == keys,
                Err(e) => r matches Err(x) && x@ == e && final(self).keys() == old(self).keys(),
            },
    {
        let context_type = factory.key();
        match self.position(context_type) {
            Some(_) => Err(RegistryError::AlreadyRegistered(String::from_str(context_type))),
            None => {
                let ghost before = self.factories@;
                self.factories.push(factory);
                proof {
                    assert(keys_of(self.factories@) =~= keys_of(before).push(factory.spec_key()));
                }
                Ok(())
            },
        }
    }

    /// Makes a provider of type `context_type` from its configuration:
    /// whatever the factory registered under that key makes of it. An
    /// unknown type is refused.
    pub fn create_context(
        &self,
        context_type: &str,
        config: &JsonValue,
        project_root: &str,
    ) -> (made: CoreResult<F::Provider>)
        requires
            self.wf(),
        ensures
            made is Ok <==> self.resolves(context_type@, config@, project_root@),
            made matches Ok(provider) ==> self.provides(
                context_type@,
                config@,
                project_root@,
                provider,
            ),
            made matches Err(e) ==> e@ == self.refusal(context_type@, config@, project_root@),
    {
        match self.position(context_type) {
            Some(i) => self.factories[i].create_context(config, project_root),
            None => Err(
                CoreError::Registry(RegistryError::TypeNotFound(String::from_str(context_type))),
            ),
        }
    }

    /// The registered type keys, in the order of their registration, each
    /// once.
    pub fn registered_types(&self) -> (types: Vec<&'static str>)
        requires
            self.wf(),
        ensures
            crate::views(types@) == self.keys(),
            crate::views(types@).no_duplicates(),
            crate::views(types@).to_set() == self.keys().to_set(),
    {
        let mut types: Vec<&'static str> = Vec::new();
        let mut i: usize = 0;
        while i < self.factories.len()
            invariant
                i <= self.factories.len(),
                types.len() == i,
                forall|j: int| 0 <= j < i ==> types[j]@ == self.keys()[j],
            decreases self.factories.len() - i,
        {
            types.push(self.factories[i].key());
            i = i + 1;
        }
        assert(crate::views(types@) =~= self.keys());
        types
    }
}

impl<F: ContextFactory> Default for ContextRegistry<F> {
    fn default() -> (registry: Self)
        ensures
            registry.wf(),
            registry.keys() == Seq::<Seq<char>>::empty(),
    {
        Self::new()
    }
}

/// Builds a registry one factory at a time.
pub struct RegistryBuilder<F: ContextFactory> {
    registry: ContextRegistry<F>,
}

impl<F: ContextFactory> RegistryBuilder<F> {
    /// The registry built so far.
    pub closed spec fn so_far(&self) -> ContextRegistry<F> {
        self.registry
    }

    /// A builder that has no factory yet.
    pub fn new() -> (builder: Self)
        ensures
            builder.so_far().wf(),
            builder.so_far().keys() == Seq::<Seq<char>>::empty(),
            builder.so_far().factories() == Seq::<F>::empty(),
    {
        RegistryBuilder { registry: ContextRegistry::new() }
    }

    /// Adds a factory. A key that is taken is refused.
    pub fn with_factory(self, factory: F) -> (r: Result<Self, RegistryError>)
        requires
            self.so_far().wf(),
        ensures
            match register_key(self.so_far().keys(), factory.spec_key()) {
                Ok(keys) => r matches Ok(builder) && builder.so_far().wf()
                    && builder.so_far().keys() == keys
                    && builder.so_far().factories() == self.so_far().factories().push(factory),
                Err(e) => r matches Err(x) && x@ == e,
            },
    {
        let mut builder = self;
        match builder.registry.register(factory) {
            Ok(()) => Ok(builder),
            Err(e) => Err(e),
        }
    }

    /// The registry that was built.
    pub fn build(self) -> (registry: ContextRegistry<F>)
        ensures
            registry == self.so_far(),
    {
        self.registry
    }
}

impl<F: ContextFactory> Default for RegistryBuilder<F> {
    fn default() -> (builder: Self)
        ensures
            builder.so_far().wf(),
            builder.so_far().keys() == Seq::<Seq<char>>::empty(),
    {
        Self::new()
    }
}

/// Factories with keys that all differ can be registered one after another
/// without a refusal, and the registry then holds exactly their keys.
pub proof fn lemma_distinct_keys_register(offered: Seq<Seq<char>>)
    requires
        offered.no_duplicates(),
    ensures
        register_keys(Seq::empty(), offered) == Ok::<Seq<Seq<char>>, RegistryErrorView>(offered),
        register_keys(Seq::empty(), offered)->Ok_0.to_set() == offered.to_set(),
    decreases offered.len(),
{
    if offered.len() > 0 {
        let front = offered.drop_last();
        lemma_distinct_keys_register(front);
        assert(!front.contains(offered.last()));
        assert(front.push(offered.last()) =~= offered);
    } else {
        assert(offered =~= Seq::<Seq<char>>::empty());
    }
}

/// Where two of the offered keys are the same, registration is refused at
/// the second of the first such pair, with `AlreadyRegistered`.
pub proof fn lemma_repeated_key_is_refused(offered: Seq<Seq<char>>, i: int, j: int)
    requires
        0 <= i < j < offered.len(),
        offered[i] == offered[j],
    ensures
        register_keys(Seq::empty(), offered) matches Err(e) && e is AlreadyRegistered,
    decreases offered.len(),
{
    let front = offered.drop_last();
    if j < offered.len() - 1 {
        lemma_repeated_key_is_refused(front, i, j);
    } else {
        if front.no_duplicates() {
            lemma_distinct_keys_register(front);
            assert(front[i] == offered.last());
        } else {
            let (a, b) = choose|a: int, b: int|
                0 <= a < front.len() && 0 <= b < front.len() && a != b && front[a] == front[b];
            if a < b {
                lemma_repeated_key_is_refused(front, a, b);
            } else {
                lemma_repeated_key_is_refused(front, b, a);
            }
        }
    }
}

} // verus!
