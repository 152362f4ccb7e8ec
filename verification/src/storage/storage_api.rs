//! What a registry of providers is and does.
//!
//! A registry keeps one provider under each name and may mark one of the
//! names as the default. `RegistryModel` is the registry as a mathematical
//! value; the operations on it say what the methods of `Storage` do, and the
//! laws at the end of this file say how the operations go together.

use vstd::prelude::*;
use crate::api::provider_api::{ProviderModel, WeatherProvider};
use crate::error::WeatherError;
use crate::providers::Provider;

verus! {

/// A registry as a mathematical value.
pub struct RegistryModel {
    /// The provider kept under each name.
    pub entries: Map<Seq<char>, ProviderModel>,
    /// The name of the default provider, if one is set.
    pub default_name: Option<Seq<char>>,
}

impl RegistryModel {
    /// The registry that keeps nothing.
    pub open spec fn empty() -> RegistryModel {
        RegistryModel { entries: Map::empty(), default_name: None }
    }

    /// Finitely many providers are kept, each under its own name, and the
    /// default, if there is one, names a provider that is kept.
    pub open spec fn valid(self) -> bool {
        &&& self.entries.dom().finite()
        &&& forall|name: Seq<char>| #[trigger]
            self.entries.contains_key(name) ==> self.entries[name].name == name
        &&& match self.default_name {
            Some(name) => self.entries.contains_key(name),
            None => true,
        }
    }

    /// Whether a provider is kept under `name`.
    pub open spec fn knows(self, name: Seq<char>) -> bool {
        self.entries.contains_key(name)
    }

    /// The provider kept under `name`.
    pub open spec fn lookup(self, name: Seq<char>) -> Option<ProviderModel> {
        if self.entries.contains_key(name) {
            Some(self.entries[name])
        } else {
            None
        }
    }

    /// The registry after `provider` was put under its name, in place of
    /// whatever was kept there.
    pub open spec fn with_provider(self, provider: ProviderModel) -> RegistryModel {
        RegistryModel { entries: self.entries.insert(provider.name, provider), ..self }
    }

    /// The registry after whatever was kept under `name` was taken out. A
    /// default of that name is cleared.
    pub open spec fn without(self, name: Seq<char>) -> RegistryModel {
        RegistryModel {
            entries: self.entries.remove(name),
            default_name: if self.default_name == Some(name) {
                None
            } else {
                self.default_name
            },
        }
    }

    /// The registry after `name` was made the default.
    pub open spec fn with_default(self, name: Seq<char>) -> RegistryModel {
        RegistryModel { default_name: Some(name), ..self }
    }

    /// The default provider: none where no default is set, and none where the
    /// default names nothing that is kept.
    pub open spec fn default_entry(self) -> Option<ProviderModel> {
        match self.default_name {
            Some(name) => self.lookup(name),
            None => None,
        }
    }
}

/// The provider behind an optional reference, as a mathematical value.
pub open spec fn found(entry: Option<&Provider>) -> Option<ProviderModel> {
    match entry {
        Some(p) => Some(p.model()),
        None => None,
    }
}

/// The providers behind a list of references, in its order.
pub open spec fn listed(all: Seq<&Provider>) -> Seq<ProviderModel> {
    all.map_values(|p: &Provider| p.model())
}

/// `list` holds each entry of `entries` once, and nothing else.
pub open spec fn lists(list: Seq<ProviderModel>, entries: Map<Seq<char>, ProviderModel>) -> bool {
    &&& entries.dom().finite()
    &&& list.len() == entries.dom().len()
    &&& forall|i: int|
        0 <= i < list.len() ==> entries.contains_key((#[trigger] list[i]).name)
            && entries[list[i].name] == list[i]
    &&& forall|i: int, j: int|
        0 <= i < j < list.len() ==> (#[trigger] list[i]).name != (#[trigger] list[j]).name
    &&& forall|name: Seq<char>| #[trigger]
        entries.contains_key(name) ==> exists|i: int|
            0 <= i < list.len() && (#[trigger] list[i]).name == name
}

/// A registry of providers. The methods that change it return `Err` only
/// where an implementation cannot keep what it was given, but for
/// `set_default_entry`, which also refuses a name that is not kept.
pub trait Storage {
    /// The invariant of the implementation.
    spec fn wf(&self) -> bool;

    /// Whether the implementation can always keep what it is given. Where it
    /// can, `add` and `delete` succeed, and `set_default_entry` succeeds on
    /// every name that is kept.
    spec fn dependable(&self) -> bool;

    /// The registry as a mathematical value.
    spec fn registry(&self) -> RegistryModel;

    /// The providers in the order in which `get_all` gives them.
    spec fn listing(&self) -> Seq<ProviderModel>;

    /// A well-formed implementation stands for a valid registry, and its
    /// listing holds each provider of the registry once.
    proof fn registry_is_valid(&self)
        requires
            self.wf(),
        ensures
            self.registry().valid(),
            lists(self.listing(), self.registry().entries),
    ;

    /// All providers, each once.
    fn get_all(&self) -> (all: Vec<&Provider>)
        requires
            self.wf(),
        ensures
            listed(all@) == self.listing(),
            lists(listed(all@), self.registry().entries),
    ;

    /// Puts `provider` under its name, in place of whatever was kept there.
    fn add(&mut self, provider: Provider) -> (done: Result<(), WeatherError>)
        requires
            old(self).wf(),
        ensures
            final(self).wf(),
            final(self).dependable() == old(self).dependable(),
            old(self).dependable() ==> done is Ok,
            done is Ok ==> final(self).registry() == old(self).registry().with_provider(
                provider.model(),
            ),
    ;

    /// The provider kept under `key`.
    fn get(&self, key: &str) -> (entry: Option<&Provider>)
        requires
            self.wf(),
        ensures
            found(entry) == self.registry().lookup(key@),
    ;

    /// Takes out whatever is kept under `key`, and clears the default if it
    /// was `key`. That nothing was kept there is no error.
    fn delete(&mut self, key: &str) -> (done: Result<(), WeatherError>)
        requires
            old(self).wf(),
        ensures
            final(self).wf(),
            final(self).dependable() == old(self).dependable(),
            old(self).dependable() ==> done is Ok,
            done is Ok ==> final(self).registry() == old(self).registry().without(key@),
    ;

    /// Makes `key` the default. Where nothing is kept under `key` the call
    /// fails with `NoSuchProviderError` and changes nothing.
    fn set_default_entry(&mut self, key: &str) -> (done: Result<(), WeatherError>)
        requires
            old(self).wf(),
        ensures
            final(self).wf(),
            final(self).dependable() == old(self).dependable(),
            old(self).dependable() && old(self).registry().knows(key@) ==> done is Ok,
            !old(self).registry().knows(key@) ==> done == Err::<(), WeatherError>(
                WeatherError::NoSuchProviderError,
            ) && final(self).registry() == old(self).registry(),
            done is Ok ==> old(self).registry().knows(key@) && final(self).registry() == old(
                self,
            ).registry().with_default(key@),
    ;

    /// The default provider, if one is set.
    fn get_default_entry(&self) -> (entry: Option<&Provider>)
        requires
            self.wf(),
        ensures
            found(entry) == self.registry().default_entry(),
    ;
}

/// A provider that was added is found under its name, as it was added.
pub proof fn law_added_is_found(registry: RegistryModel, provider: ProviderModel)
    ensures
        registry.with_provider(provider).lookup(provider.name) == Some(provider),
{
}

/// Adding a provider changes nothing under any other name, and leaves the
/// default as it was.
pub proof fn law_adding_keeps_the_rest(
    registry: RegistryModel,
    provider: ProviderModel,
    other: Seq<char>,
)
    requires
        other != provider.name,
    ensures
        registry.with_provider(provider).lookup(other) == registry.lookup(other),
        registry.with_provider(provider).default_name == registry.default_name,
{
}

/// Adding under a name that is already kept replaces what was there: the
/// registry is the one that only the second provider was added to.
pub proof fn law_adding_again_replaces(
    registry: RegistryModel,
    first: ProviderModel,
    second: ProviderModel,
)
    requires
        first.name == second.name,
    ensures
        registry.with_provider(first).with_provider(second) == registry.with_provider(second),
        registry.with_provider(first).with_provider(second).lookup(first.name) == Some(second),
{
    assert(registry.entries.insert(first.name, first).insert(second.name, second)
        =~= registry.entries.insert(second.name, second));
}

/// After a provider was added, made the default and deleted, there is no
/// default and nothing is kept under its name.
pub proof fn law_deleting_the_default_clears_it(registry: RegistryModel, provider: ProviderModel)
    ensures
        registry.with_provider(provider).knows(provider.name),
        registry.with_provider(provider).with_default(provider.name).without(
            provider.name,
        ).default_entry() is None,
        registry.with_provider(provider).with_default(provider.name).without(
            provider.name,
        ).default_name is None,
        registry.with_provider(provider).with_default(provider.name).without(
            provider.name,
        ).lookup(provider.name) is None,
{
}

/// Deleting changes nothing under any other name, and keeps a default of
/// another name.
pub proof fn law_deleting_keeps_the_rest(registry: RegistryModel, name: Seq<char>, other: Seq<char>)
    requires
        other != name,
    ensures
        registry.without(name).lookup(other) == registry.lookup(other),
        registry.default_name == Some(other) ==> registry.without(name).default_name == Some(
            other,
        ),
{
}

/// Deleting a name that is not kept changes nothing in a valid registry.
pub proof fn law_deleting_the_absent_changes_nothing(registry: RegistryModel, name: Seq<char>)
    requires
        registry.valid(),
        !registry.knows(name),
    ensures
        registry.without(name) == registry,
{
    assert(registry.entries.remove(name) =~= registry.entries);
}

/// Every operation takes a valid registry to a valid one: the default always
/// names a provider that is kept. A name is made the default only where it is
/// kept.
pub proof fn law_operations_keep_validity(
    registry: RegistryModel,
    provider: ProviderModel,
    name: Seq<char>,
)
    requires
        registry.valid(),
    ensures
        RegistryModel::empty().valid(),
        registry.with_provider(provider).valid(),
        registry.without(name).valid(),
        registry.knows(name) ==> registry.with_default(name).valid(),
{
}

/// In a valid registry the default provider, where a default is set, is the
/// one kept under the default's name, and it carries that name.
pub proof fn law_default_is_kept(registry: RegistryModel)
    requires
        registry.valid(),
    ensures
        registry.default_name is Some <==> registry.default_entry() is Some,
        registry.default_name is Some ==> registry.default_entry()->0.name
            == registry.default_name->0,
{
}

} // verus!
