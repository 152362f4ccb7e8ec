//! The registry that is kept in a JSON file.
//!
//! `JsonStorage` is the registry in memory: a list of providers with
//! distinct names, in the order in which they were first added, and the name
//! of the default. `StoredRegistry` is the registry as the file holds it:
//! the providers and the default, and nothing of where the file lies.
//! Reading and writing the file is the caller's part: `JsonStorage::new`
//! takes what was read, `JsonStorage::snapshot` gives what is to be written,
//! and `JsonStorage::path` says where to.

use vstd::prelude::*;
use vstd::string::StringExecFns;
use crate::api::provider_api::{copy_text, text_of, ProviderModel, WeatherProvider};
use crate::error::WeatherError;
use crate::providers::{Provider, ProviderRecord};
use crate::storage::storage_api::{listed, lists, RegistryModel, Storage};

verus! {

/// No two providers of the list have the same name.
pub open spec fn names_distinct(list: Seq<ProviderModel>) -> bool {
    forall|i: int, j: int|
        0 <= i < j < list.len() ==> (#[trigger] list[i]).name != (#[trigger] list[j]).name
}

/// A provider of the list has the name.
pub open spec fn holds(list: Seq<ProviderModel>, name: Seq<char>) -> bool {
    exists|i: int| 0 <= i < list.len() && (#[trigger] list[i]).name == name
}

/// A place in the list where the name stands.
pub open spec fn position(list: Seq<ProviderModel>, name: Seq<char>) -> int {
    choose|i: int| 0 <= i < list.len() && (#[trigger] list[i]).name == name
}

/// The list's providers, each under its name.
pub open spec fn entries_of(list: Seq<ProviderModel>) -> Map<Seq<char>, ProviderModel> {
    Map::new(|name: Seq<char>| holds(list, name), |name: Seq<char>| list[position(list, name)])
}

/// The list after `provider` was put into it: in the place of the one with
/// the same name, or else at the end.
pub open spec fn list_with(list: Seq<ProviderModel>, provider: ProviderModel) -> Seq<ProviderModel> {
    if holds(list, provider.name) {
        list.update(position(list, provider.name), provider)
    } else {
        list.push(provider)
    }
}

/// The list after the provider called `name` was taken out of it.
pub open spec fn list_without(list: Seq<ProviderModel>, name: Seq<char>) -> Seq<ProviderModel> {
    if holds(list, name) {
        list.remove(position(list, name))
    } else {
        list
    }
}

/// The providers of a list, as mathematical values.
pub open spec fn models(providers: Seq<Provider>) -> Seq<ProviderModel> {
    providers.map_values(|p: Provider| p.model())
}

/// In a list of distinct names each provider is the entry under its name.
pub proof fn lemma_entry_at(list: Seq<ProviderModel>, i: int)
    requires
        names_distinct(list),
        0 <= i < list.len(),
    ensures
        holds(list, list[i].name),
        position(list, list[i].name) == i,
        entries_of(list).contains_key(list[i].name),
        entries_of(list)[list[i].name] == list[i],
{
    let j = position(list, list[i].name);
    assert(0 <= j < list.len() && list[j].name == list[i].name);
}

/// A list of distinct names has as many entries as it is long.
pub proof fn lemma_count_of_entries(list: Seq<ProviderModel>)
    requires
        names_distinct(list),
    ensures
        entries_of(list).dom().finite(),
        entries_of(list).dom().len() == list.len(),
    decreases list.len(),
{
    if list.len() == 0 {
        assert(entries_of(list).dom() =~= Set::<Seq<char>>::empty());
    } else {
        let init = list.drop_last();
        let last = list.last();
        assert forall|i: int, j: int| 0 <= i < j < init.len() implies (#[trigger] init[i]).name
            != (#[trigger] init[j]).name by {
            assert(list[i].name != list[j].name);
        }
        if holds(init, last.name) {
            let i = position(init, last.name);
            assert(list[i].name == list[list.len() - 1].name);
        }
        lemma_count_of_entries(init);
        lemma_pushed(init, last);
        assert(init.push(last) =~= list);
        assert(entries_of(list).dom() =~= entries_of(init).dom().insert(last.name));
        assert(!entries_of(init).dom().contains(last.name));
    }
}

/// A list of distinct names holds each of its entries once.
pub proof fn lemma_list_of_entries(list: Seq<ProviderModel>)
    requires
        names_distinct(list),
    ensures
        lists(list, entries_of(list)),
        forall|name: Seq<char>| #[trigger]
            entries_of(list).contains_key(name) ==> entries_of(list)[name].name == name,
{
    lemma_count_of_entries(list);
    assert forall|i: int| 0 <= i < list.len() implies entries_of(list).contains_key(
        (#[trigger] list[i]).name,
    ) && entries_of(list)[list[i].name] == list[i] by {
        lemma_entry_at(list, i);
    }
    assert forall|name: Seq<char>| #[trigger]
        entries_of(list).contains_key(name) implies entries_of(list)[name].name == name by {
        let j = position(list, name);
        assert(0 <= j < list.len() && list[j].name == name);
    }
}

/// Appending a provider of a new name adds its entry.
proof fn lemma_pushed(list: Seq<ProviderModel>, provider: ProviderModel)
    requires
        names_distinct(list),
        !holds(list, provider.name),
    ensures
        names_distinct(list.push(provider)),
        entries_of(list.push(provider)) == entries_of(list).insert(provider.name, provider),
        forall|name: Seq<char>| holds(list, name) ==> holds(list.push(provider), name),
{
    let after = list.push(provider);
    assert forall|i: int, j: int| 0 <= i < j < after.len() implies (#[trigger] after[i]).name != (
    #[trigger] after[j]).name by {
        if j == list.len() {
            assert(list[i].name != provider.name);
        } else {
            assert(list[i].name != list[j].name);
        }
    }
    assert forall|name: Seq<char>| holds(list, name) implies holds(after, name) by {
        let i = position(list, name);
        assert(after[i].name == name);
    }
    assert forall|name: Seq<char>| holds(after, name) implies holds(list, name) || name
        == provider.name by {
        let i = position(after, name);
        if i < list.len() {
            assert(list[i].name == name);
        }
    }
    assert(after[list.len() as int].name == provider.name);
    assert forall|name: Seq<char>| holds(after, name) implies #[trigger] entries_of(after)[name]
        == entries_of(list).insert(provider.name, provider)[name] by {
        let i = position(after, name);
        lemma_entry_at(after, i);
        if i < list.len() {
            assert(list[i] == after[i]);
            lemma_entry_at(list, i);
        }
    }
    assert(entries_of(after) =~= entries_of(list).insert(provider.name, provider));
}

/// Putting a provider in the place of one with the same name replaces its
/// entry.
proof fn lemma_replaced(list: Seq<ProviderModel>, at: int, provider: ProviderModel)
    requires
        names_distinct(list),
        0 <= at < list.len(),
        list[at].name == provider.name,
    ensures
        names_distinct(list.update(at, provider)),
        entries_of(list.update(at, provider)) == entries_of(list).insert(provider.name, provider),
        forall|name: Seq<char>| holds(list, name) ==> holds(list.update(at, provider), name),
{
    let after = list.update(at, provider);
    assert forall|i: int, j: int| 0 <= i < j < after.len() implies (#[trigger] after[i]).name != (
    #[trigger] after[j]).name by {
        assert(list[i].name != list[j].name);
    }
    assert forall|name: Seq<char>| holds(list, name) implies holds(after, name) by {
        let i = position(list, name);
        assert(after[i].name == name);
    }
    assert forall|name: Seq<char>| holds(after, name) implies holds(list, name) by {
        let i = position(after, name);
        assert(list[i].name == name);
    }
    assert forall|name: Seq<char>| holds(after, name) implies #[trigger] entries_of(after)[name]
        == entries_of(list).insert(provider.name, provider)[name] by {
        let i = position(after, name);
        lemma_entry_at(after, i);
        if i != at {
            assert(list[i] == after[i]);
            assert(list[i].name != list[at].name);
            lemma_entry_at(list, i);
        }
    }
    assert(entries_of(after) =~= entries_of(list).insert(provider.name, provider));
}

/// Taking a provider out of the list removes its entry.
proof fn lemma_removed(list: Seq<ProviderModel>, at: int)
    requires
        names_distinct(list),
        0 <= at < list.len(),
    ensures
        names_distinct(list.remove(at)),
        entries_of(list.remove(at)) == entries_of(list).remove(list[at].name),
        forall|name: Seq<char>|
            holds(list, name) && name != list[at].name ==> holds(list.remove(at), name),
{
    let after = list.remove(at);
    assert forall|i: int| 0 <= i < after.len() implies #[trigger] after[i] == list[if i < at {
        i
    } else {
        i + 1
    }] by {}
    assert forall|i: int, j: int| 0 <= i < j < after.len() implies (#[trigger] after[i]).name != (
    #[trigger] after[j]).name by {
        let a = if i < at { i } else { i + 1 };
        let b = if j < at { j } else { j + 1 };
        assert(list[a].name != list[b].name);
    }
    assert forall|name: Seq<char>| holds(list, name) && name != list[at].name implies holds(
        after,
        name,
    ) by {
        let i = position(list, name);
        let a = if i < at { i } else { i - 1 };
        assert(after[a] == list[i]);
        assert(after[a].name == name);
    }
    assert forall|name: Seq<char>| holds(after, name) implies holds(list, name) && name
        != list[at].name by {
        let i = position(after, name);
        let a = if i < at { i } else { i + 1 };
        assert(list[a] == after[i]);
        assert(list[a].name == name);
        if a < at {
            assert(list[a].name != list[at].name);
        } else {
            assert(list[at].name != list[a].name);
        }
    }
    assert forall|name: Seq<char>| holds(after, name) implies #[trigger] entries_of(after)[name]
        == entries_of(list).remove(list[at].name)[name] by {
        let i = position(after, name);
        let a = if i < at { i } else { i + 1 };
        assert(list[a] == after[i]);
        lemma_entry_at(after, i);
        lemma_entry_at(list, a);
    }
    assert(entries_of(after) =~= entries_of(list).remove(list[at].name));
}

/// The place of the provider called `key`, if there is one.
fn position_of(configs: &Vec<Provider>, key: &String) -> (at: Option<usize>)
    ensures
        match at {
            Some(i) => i < configs.len() && models(configs@)[i as int].name == key@,
            None => !holds(models(configs@), key@),
        },
{
    let mut i: usize = 0;
    while i < configs.len()
        invariant
            i <= configs.len(),
            forall|j: int| 0 <= j < i ==> (#[trigger] models(configs@)[j]).name != key@,
        decreases configs.len() - i,
    {
        if configs[i].get_name() == *key {
            return Some(i);
        }
        i += 1;
    }
    None
}

/// One entry of a stored registry: a provider's record under a key.
#[derive(Debug, PartialEq, Eq)]
pub struct StoredEntry {
    pub key: String,
    pub provider: ProviderRecord,
}

/// A registry as its file holds it: the providers' records by name, and the
/// name of the default.
#[derive(Debug, PartialEq, Eq)]
pub struct StoredRegistry {
    pub configs: Vec<StoredEntry>,
    pub default: Option<String>,
}

impl StoredRegistry {
    /// The providers that the records describe, in their order.
    pub open spec fn records(&self) -> Seq<ProviderModel> {
        self.configs@.map_values(|e: StoredEntry| e.provider.model())
    }

    /// Each record stands under its provider's name.
    pub open spec fn keyed_by_name(&self) -> bool {
        forall|i: int|
            0 <= i < self.configs@.len() ==> (#[trigger] self.configs@[i]).key@
                == self.configs@[i].provider.name@
    }

    /// What is stored is a registry: each record stands under its provider's
    /// name, and no name stands twice.
    pub open spec fn valid(&self) -> bool {
        &&& self.keyed_by_name()
        &&& names_distinct(self.records())
    }

    /// The default that is stored, where it names one of the records. A
    /// default that names none of them counts as no default.
    pub open spec fn kept_default(&self) -> Option<Seq<char>> {
        match self.default {
            Some(name) => if holds(self.records(), name@) {
                Some(name@)
            } else {
                None
            },
            None => None,
        }
    }

    /// The registry that is stored.
    pub open spec fn registry(&self) -> RegistryModel {
        RegistryModel { entries: entries_of(self.records()), default_name: self.kept_default() }
    }
}

/// A registry of providers, in memory, that belongs to a file.
#[derive(Debug)]
pub struct JsonStorage {
    path: String,
    configs: Vec<Provider>,
    default: Option<String>,
}

impl JsonStorage {
    /// The path of the file that the registry belongs to: the one that it
    /// was made with.
    pub closed spec fn location(&self) -> Seq<char> {
        self.path@
    }

    /// The path of the file that the registry is to be written to.
    pub fn path(&self) -> (path: &str)
        ensures
            path@ == self.location(),
    {
        self.path.as_str()
    }

    /// The providers in the order in which their names were first added.
    pub closed spec fn records(&self) -> Seq<ProviderModel> {
        models(self.configs@)
    }

    /// `stored` is what this registry writes to its file.
    pub open spec fn writes(&self, stored: StoredRegistry) -> bool {
        &&& stored.keyed_by_name()
        &&& stored.records() == self.records()
        &&& text_of(stored.default) == self.registry().default_name
    }

    /// This registry is what reading `stored` gives.
    pub open spec fn read_from(&self, stored: StoredRegistry) -> bool {
        &&& self.wf()
        &&& self.records() == stored.records()
        &&& self.registry() == stored.registry()
    }

    /// The registry of the file at `path`. `stored` is what the file holds:
    /// `None` where there is no file yet or the file is empty, which gives the
    /// empty registry. What a file holds is taken as it is, but for a default
    /// that names none of its providers, which is dropped. Where what it
    /// holds is no registry the call fails with `ReadConfigFileError`. The
    /// registry belongs to `path` in either case.
    pub fn new(path: &str, stored: Option<StoredRegistry>) -> (made: Result<Self, WeatherError>)
        ensures
            match stored {
                None => made is Ok && made->Ok_0.wf() && made->Ok_0.location() == path@
                    && made->Ok_0.records() == Seq::<ProviderModel>::empty()
                    && made->Ok_0.registry() == RegistryModel::empty(),
                Some(held) => if held.valid() {
                    made is Ok && made->Ok_0.read_from(held) && made->Ok_0.location() == path@
                } else {
                    made == Err::<Self, WeatherError>(WeatherError::ReadConfigFileError)
                },
            },
    {
        match stored {
            None => {
                let made = JsonStorage {
                    path: String::from_str(path),
                    configs: Vec::new(),
                    default: None,
                };
                assert(made.records() =~= Seq::<ProviderModel>::empty());
                assert(made.registry().entries =~= Map::<Seq<char>, ProviderModel>::empty());
                Ok(made)
            },
            Some(held) => {
                let mut configs: Vec<Provider> = Vec::new();
                let mut i: usize = 0;
                while i < held.configs.len()
                    invariant
                        stored == Some(held),
                        i <= held.configs.len(),
                        configs@.len() == i,
                        models(configs@) =~= held.records().take(i as int),
                        names_distinct(models(configs@)),
                        forall|j: int|
                            0 <= j < i ==> (#[trigger] held.configs@[j]).key@
                                == held.configs@[j].provider.name@,
                    decreases held.configs.len() - i,
                {
                    let entry = &held.configs[i];
                    if !(entry.key == entry.provider.name) {
                        assert(held.configs@[i as int].key@
                            != held.configs@[i as int].provider.name@);
                        return Err(WeatherError::ReadConfigFileError);
                    }
                    match position_of(&configs, &entry.provider.name) {
                        Some(at) => {
                            assert(models(configs@)[at as int] == held.records()[at as int]);
                            assert(held.records()[at as int].name
                                == held.records()[i as int].name);
                            return Err(WeatherError::ReadConfigFileError);
                        },
                        None => {},
                    }
                    let ghost before = models(configs@);
                    let provider = Provider::from_record(&entry.provider);
                    proof {
                        lemma_pushed(before, provider.model());
                    }
                    configs.push(provider);
                    assert(models(configs@) =~= before.push(held.records()[i as int]));
                    i += 1;
                }
                assert(held.records().take(i as int) =~= held.records());
                let default = match held.default {
                    Some(name) => if position_of(&configs, &name).is_some() {
                        Some(name)
                    } else {
                        None
                    },
                    None => None,
                };
                Ok(JsonStorage { path: String::from_str(path), configs, default })
            },
        }
    }

    /// The registry as it is to be written to its file.
    pub fn snapshot(&self) -> (stored: StoredRegistry)
        requires
            self.wf(),
        ensures
            self.writes(stored),
            stored.valid(),
            stored.registry() == self.registry(),
    {
        let mut configs: Vec<StoredEntry> = Vec::new();
        let mut i: usize = 0;
        while i < self.configs.len()
            invariant
                i <= self.configs.len(),
                configs@.len() == i,
                forall|j: int|
                    0 <= j < i ==> (#[trigger] configs@[j]).provider.model() == models(
                        self.configs@,
                    )[j] && configs@[j].key@ == configs@[j].provider.name@,
            decreases self.configs.len() - i,
        {
            let provider = self.configs[i].to_record();
            configs.push(StoredEntry { key: provider.name.clone(), provider });
            i += 1;
        }
        let stored = StoredRegistry { configs, default: copy_text(&self.default) };
        assert(stored.records() =~= self.records());
        stored
    }
}

impl Storage for JsonStorage {
    closed spec fn wf(&self) -> bool {
        &&& names_distinct(self.records())
        &&& match self.default {
            Some(name) => holds(self.records(), name@),
            None => true,
        }
    }

    /// The registry in memory keeps whatever it is given.
    open spec fn dependable(&self) -> bool {
        true
    }

    closed spec fn registry(&self) -> RegistryModel {
        RegistryModel {
            entries: entries_of(self.records()),
            default_name: text_of(self.default),
        }
    }

    /// The providers are listed in the order in which their names were first
    /// added.
    open spec fn listing(&self) -> Seq<ProviderModel> {
        self.records()
    }

    proof fn registry_is_valid(&self) {
        lemma_list_of_entries(self.records());
    }

    fn get_all(&self) -> (all: Vec<&Provider>) {
        let mut all: Vec<&Provider> = Vec::new();
        let mut i: usize = 0;
        while i < self.configs.len()
            invariant
                i <= self.configs.len(),
                all@.len() == i,
                forall|j: int| 0 <= j < i ==> *(#[trigger] all@[j]) == self.configs@[j],
            decreases self.configs.len() - i,
        {
            all.push(&self.configs[i]);
            i += 1;
        }
        proof {
            assert(listed(all@) =~= self.records());
            lemma_list_of_entries(self.records());
        }
        all
    }

    fn add(&mut self, provider: Provider) -> (done: Result<(), WeatherError>)
        ensures
            final(self).location() == old(self).location(),
            final(self).records() == list_with(old(self).records(), provider.model()),
    {
        let name = provider.get_name();
        let ghost before = self.records();
        let ghost added = provider.model();
        match position_of(&self.configs, &name) {
            Some(at) => {
                self.configs.set(at, provider);
                proof {
                    lemma_entry_at(before, at as int);
                    lemma_replaced(before, at as int, added);
                    assert(self.records() =~= before.update(at as int, added));
                }
            },
            None => {
                self.configs.push(provider);
                proof {
                    lemma_pushed(before, added);
                    assert(self.records() =~= before.push(added));
                }
            },
        }
        Ok(())
    }

    fn get(&self, key: &str) -> (entry: Option<&Provider>) {
        let name = key.to_owned();
        match position_of(&self.configs, &name) {
            Some(at) => {
                proof {
                    lemma_entry_at(self.records(), at as int);
                }
                Some(&self.configs[at])
            },
            None => None,
        }
    }

    fn delete(&mut self, key: &str) -> (done: Result<(), WeatherError>)
        ensures
            final(self).location() == old(self).location(),
            final(self).records() == list_without(old(self).records(), key@),
    {
        let name = key.to_owned();
        let ghost before = self.records();
        match position_of(&self.configs, &name) {
            Some(at) => {
                self.configs.remove(at);
                proof {
                    lemma_entry_at(before, at as int);
                    lemma_removed(before, at as int);
                    assert(self.records() =~= before.remove(at as int));
                }
            },
            None => {
                assert(entries_of(before).remove(name@) =~= entries_of(before));
            },
        }
        let clear = match &self.default {
            Some(d) => *d == name,
            None => false,
        };
        if clear {
            self.default = None;
        }
        Ok(())
    }

    fn set_default_entry(&mut self, key: &str) -> (done: Result<(), WeatherError>)
        ensures
            final(self).records() == old(self).records(),
            final(self).location() == old(self).location(),
    {
        let name = key.to_owned();
        match position_of(&self.configs, &name) {
            Some(at) => {
                proof {
                    lemma_entry_at(self.records(), at as int);
                }
                self.default = Some(name);
                Ok(())
            },
            None => Err(WeatherError::NoSuchProviderError),
        }
    }

    fn get_default_entry(&self) -> (entry: Option<&Provider>) {
        match &self.default {
            Some(name) => match position_of(&self.configs, name) {
                Some(at) => {
                    proof {
                        lemma_entry_at(self.records(), at as int);
                    }
                    Some(&self.configs[at])
                },
                None => None,
            },
            None => None,
        }
    }
}

/// What a registry writes can be read, what is read is the registry that
/// was written, whatever path it is read under, and it writes again what was
/// read: the same providers in the same order and the same default, however
/// often this is repeated.
pub proof fn law_round_trip(
    storage: JsonStorage,
    written: StoredRegistry,
    read: JsonStorage,
    rewritten: StoredRegistry,
)
    requires
        storage.wf(),
        storage.writes(written),
        read.read_from(written),
        read.writes(rewritten),
    ensures
        written.valid(),
        written.kept_default() == text_of(written.default),
        read.registry() == storage.registry(),
        read.records() == storage.records(),
        rewritten.valid(),
        rewritten.records() == written.records(),
        rewritten.registry() == written.registry(),
        text_of(rewritten.default) == text_of(written.default),
{
}

/// A provider that was added is still found under its name, as it was
/// added, after the registry was written and read again.
pub proof fn law_added_survives_reload(
    before: JsonStorage,
    provider: ProviderModel,
    after: JsonStorage,
    written: StoredRegistry,
    read: JsonStorage,
)
    requires
        after.wf(),
        after.registry() == before.registry().with_provider(provider),
        after.writes(written),
        read.read_from(written),
    ensures
        after.registry().lookup(provider.name) == Some(provider),
        read.registry().lookup(provider.name) == Some(provider),
{
}

} // verus!
