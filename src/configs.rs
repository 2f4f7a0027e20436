//! The registry of named configuration entries and its current default.

use vstd::prelude::*;

verus! {

/// One named configuration tree.
#[derive(Clone, Debug)]
pub struct ConfigData {
    pub name: String,
    pub path: String,
    pub description: Option<String>,
    pub data_path: Option<String>,
    pub cache_path: Option<String>,
}

/// The registry document: the current default and the entries in order.
#[derive(Clone, Debug)]
pub struct Configs {
    pub configs_default: String,
    pub configs: Vec<ConfigData>,
}

impl Configs {
    /// A registry with no entry and no default, as first written to disk.
    pub fn empty() -> (r: Configs)
        ensures
            r@.default.len() == 0,
            r@.entries.len() == 0,
    {
        Configs { configs_default: String::new(), configs: Vec::new() }
    }
}

/// A configuration directory made during setup.
#[derive(Clone, Debug)]
pub struct BackupInfo {
    pub name: String,
    pub path: String,
}

impl BackupInfo {
    pub fn new() -> (r: BackupInfo)
        ensures
            r.name@.len() == 0,
            r.path@.len() == 0,
    {
        BackupInfo { name: String::new(), path: String::new() }
    }
}

/// Why a registry operation did not apply.
#[derive(Clone, Debug, PartialEq, Eq)]
pub enum RegistryError {
    /// No entry has the name that was asked for (which is given).
    NotFound(String),
    /// An entry with this name is registered already.
    DuplicateName(String),
    /// The entry to add has no data directory.
    MissingDataPath,
    /// The entry to add has no cache directory.
    MissingCachePath,
}

/// What a `Configs` holds.
pub struct Registry {
    pub default: Seq<char>,
    pub entries: Seq<ConfigData>,
}

impl View for Configs {
    type V = Registry;

    open spec fn view(&self) -> Registry {
        Registry { default: self.configs_default@, entries: self.configs@ }
    }
}

/// The index of the first entry called `name`, or -1 where there is none.
pub open spec fn first_index(entries: Seq<ConfigData>, name: Seq<char>) -> int
    decreases entries.len(),
{
    if entries.len() == 0 {
        -1
    } else {
        let k = first_index(entries.drop_last(), name);
        if k >= 0 {
            k
        } else if entries.last().name@ == name {
            entries.len() - 1
        } else {
            -1
        }
    }
}

/// The index of the last entry called `name`, or -1 where there is none.
pub open spec fn last_index(entries: Seq<ConfigData>, name: Seq<char>) -> int
    decreases entries.len(),
{
    if entries.len() == 0 {
        -1
    } else if entries.last().name@ == name {
        entries.len() - 1
    } else {
        last_index(entries.drop_last(), name)
    }
}

pub open spec fn has_name(entries: Seq<ConfigData>, name: Seq<char>) -> bool {
    first_index(entries, name) >= 0
}

/// The name that a load looks up: the one given, or else the default.
pub open spec fn target_of(reg: Registry, name: Seq<char>) -> Seq<char> {
    if name.len() == 0 {
        reg.default
    } else {
        name
    }
}

/// The entry that a load of `name` finds, if any (an empty target finds none).
pub open spec fn lookup(reg: Registry, name: Seq<char>) -> Option<ConfigData> {
    let t = target_of(reg, name);
    if t.len() > 0 && has_name(reg.entries, t) {
        Some(reg.entries[first_index(reg.entries, t)])
    } else {
        None
    }
}

/// The registry after a load of `name`: the entry found becomes the default.
pub open spec fn loaded(reg: Registry, name: Seq<char>) -> Registry {
    match lookup(reg, name) {
        Some(e) => Registry { default: e.name@, entries: reg.entries },
        None => reg,
    }
}

/// The entries without those called `name`, in their order.
pub open spec fn without_name(entries: Seq<ConfigData>, name: Seq<char>) -> Seq<ConfigData>
    decreases entries.len(),
{
    if entries.len() == 0 {
        entries
    } else {
        let rest = without_name(entries.drop_last(), name);
        if entries.last().name@ == name {
            rest
        } else {
            rest.push(entries.last())
        }
    }
}

/// No two entries share a name.
pub open spec fn names_unique(entries: Seq<ConfigData>) -> bool {
    forall|i: int, j: int|
        0 <= i < j < entries.len() ==> entries[i].name@ != entries[j].name@
}

pub proof fn lemma_first_index(entries: Seq<ConfigData>, name: Seq<char>)
    ensures
        -1 <= first_index(entries, name) < entries.len(),
        first_index(entries, name) >= 0 ==> entries[first_index(entries, name)].name@ == name,
        forall|j: int|
            0 <= j < entries.len() && (first_index(entries, name) < 0 || j < first_index(
                entries,
                name,
            )) ==> entries[j].name@ != name,
    decreases entries.len(),
{
    if entries.len() > 0 {
        let d = entries.drop_last();
        lemma_first_index(d, name);
        assert forall|j: int|
            0 <= j < entries.len() && (first_index(entries, name) < 0 || j < first_index(
                entries,
                name,
            )) implies entries[j].name@ != name by {
            if j < d.len() {
                assert(entries[j] == d[j]);
            }
        }
        if first_index(d, name) >= 0 {
            assert(entries[first_index(d, name)] == d[first_index(d, name)]);
        }
    }
}

proof fn lemma_first_index_step(entries: Seq<ConfigData>, name: Seq<char>, i: int)
    requires
        0 <= i < entries.len(),
    ensures
        first_index(entries.subrange(0, i + 1), name) == if first_index(
            entries.subrange(0, i),
            name,
        ) >= 0 {
            first_index(entries.subrange(0, i), name)
        } else if entries[i].name@ == name {
            i
        } else {
            -1
        },
{
    assert(entries.subrange(0, i + 1).drop_last() =~= entries.subrange(0, i));
}

proof fn lemma_without_name_step(entries: Seq<ConfigData>, name: Seq<char>, i: int)
    requires
        0 <= i < entries.len(),
    ensures
        without_name(entries.subrange(0, i + 1), name) == if entries[i].name@ == name {
            without_name(entries.subrange(0, i), name)
        } else {
            without_name(entries.subrange(0, i), name).push(entries[i])
        },
{
    assert(entries.subrange(0, i + 1).drop_last() =~= entries.subrange(0, i));
}

/// Once the entries called `name` are dropped, none is left.
pub proof fn lemma_without_name_has_none(entries: Seq<ConfigData>, name: Seq<char>)
    ensures
        forall|i: int|
            0 <= i < without_name(entries, name).len() ==> without_name(entries, name)[i].name@
                != name,
    decreases entries.len(),
{
    if entries.len() > 0 {
        lemma_without_name_has_none(entries.drop_last(), name);
    }
}

/// Dropping the entries called `name` from a list that has none changes nothing.
pub proof fn lemma_without_absent_name(entries: Seq<ConfigData>, name: Seq<char>)
    requires
        forall|i: int| 0 <= i < entries.len() ==> entries[i].name@ != name,
    ensures
        without_name(entries, name) == entries,
    decreases entries.len(),
{
    if entries.len() > 0 {
        lemma_without_absent_name(entries.drop_last(), name);
        assert(entries.drop_last().push(entries.last()) =~= entries);
    }
}

/// Removing a name twice leaves the registry as removing it once does.
pub proof fn lemma_remove_idempotent(entries: Seq<ConfigData>, name: Seq<char>)
    ensures
        without_name(without_name(entries, name), name) == without_name(entries, name),
{
    lemma_without_name_has_none(entries, name);
    lemma_without_absent_name(without_name(entries, name), name);
}

/// An entry whose name is new, once appended, is the one and only entry
/// with that name, and it keeps its path and description.
pub proof fn lemma_added_entry_listed_once(entries: Seq<ConfigData>, e: ConfigData)
    requires
        !has_name(entries, e.name@),
    ensures
        has_name(entries.push(e), e.name@),
        lookup(Registry { default: e.name@, entries: entries.push(e) }, e.name@) == (if e.name@.len()
            > 0 {
            Some(e)
        } else {
            None
        }),
        forall|i: int|
            0 <= i < entries.push(e).len() && entries.push(e)[i].name@ == e.name@ ==> i
                == entries.len(),
        entries.push(e)[entries.len() as int] == e,
        names_unique(entries) ==> names_unique(entries.push(e)),
{
    lemma_first_index(entries, e.name@);
    assert(entries.push(e).drop_last() =~= entries);
}

/// Loading with no name finds the default entry and leaves the default as it was.
pub proof fn lemma_load_default_keeps_default(reg: Registry)
    requires
        reg.default.len() > 0,
        has_name(reg.entries, reg.default),
    ensures
        lookup(reg, Seq::empty()) matches Some(e) && e.name@ == reg.default,
        loaded(reg, Seq::empty()) == reg,
{
    lemma_first_index(reg.entries, reg.default);
}

/// Loading an entry by its name returns it and makes that name the default.
pub proof fn lemma_load_named_becomes_default(reg: Registry, name: Seq<char>)
    requires
        name.len() > 0,
        has_name(reg.entries, name),
    ensures
        lookup(reg, name) matches Some(e) && e.name@ == name,
        loaded(reg, name).default == name,
        loaded(reg, name).entries == reg.entries,
{
    lemma_first_index(reg.entries, name);
}

/// A copy of an optional string, equal to it.
pub(crate) fn copy_opt(s: &Option<String>) -> (r: Option<String>)
    ensures
        r == *s,
{
    match s {
        Some(v) => Some(v.clone()),
        None => None,
    }
}

impl ConfigData {
    /// A copy equal to this entry.
    pub fn duplicate(&self) -> (r: ConfigData)
        ensures
            r == *self,
    {
        ConfigData {
            name: self.name.clone(),
            path: self.path.clone(),
            description: copy_opt(&self.description),
            data_path: copy_opt(&self.data_path),
            cache_path: copy_opt(&self.cache_path),
        }
    }
}

/// Where the first entry called `name` stands, if one does.
fn position_of(configs: &Vec<ConfigData>, name: &String) -> (r: Option<usize>)
    ensures
        r matches Some(i) ==> i == first_index(configs@, name@) && i < configs.len(),
        r is None ==> first_index(configs@, name@) < 0,
{
    let mut i: usize = 0;
    while i < configs.len()
        invariant
            i <= configs.len(),
            first_index(configs@.subrange(0, i as int), name@) < 0,
        decreases configs.len() - i,
    {
        proof {
            lemma_first_index_step(configs@, name@, i as int);
        }
        if configs[i].name == *name {
            proof {
                lemma_prefix_first_index(configs@, name@, i as int + 1);
            }
            return Some(i);
        }
        i = i + 1;
    }
    assert(configs@.subrange(0, i as int) =~= configs@);
    None
}

/// Where the last entry called `name` stands, if one does.
pub(crate) fn last_position_of(configs: &Vec<ConfigData>, name: &String) -> (r: Option<usize>)
    ensures
        r matches Some(i) ==> i == last_index(configs@, name@) && i < configs.len(),
        r is None ==> last_index(configs@, name@) < 0,
{
    let mut found: Option<usize> = None;
    let mut i: usize = 0;
    while i < configs.len()
        invariant
            i <= configs.len(),
            found matches Some(k) ==> k == last_index(configs@.subrange(0, i as int), name@) && k < i,
            found is None ==> last_index(configs@.subrange(0, i as int), name@) < 0,
        decreases configs.len() - i,
    {
        assert(configs@.subrange(0, i + 1).drop_last() =~= configs@.subrange(0, i as int));
        if configs[i].name == *name {
            found = Some(i);
        }
        i = i + 1;
    }
    assert(configs@.subrange(0, i as int) =~= configs@);
    found
}

/// A match found in a prefix is the first match of the whole list.
proof fn lemma_prefix_first_index(entries: Seq<ConfigData>, name: Seq<char>, n: int)
    requires
        0 <= n <= entries.len(),
        first_index(entries.subrange(0, n), name) >= 0,
    ensures
        first_index(entries, name) == first_index(entries.subrange(0, n), name),
    decreases entries.len() - n,
{
    if n < entries.len() {
        lemma_first_index_step(entries, name, n);
        lemma_prefix_first_index(entries, name, n + 1);
    } else {
        assert(entries.subrange(0, n) =~= entries);
    }
}

/// The first entry called `name`.
pub fn find_config(configs: &Vec<ConfigData>, name: &str) -> (r: Result<ConfigData, RegistryError>)
    ensures
        r is Ok <==> has_name(configs@, name@),
        r matches Ok(e) ==> e == configs@[first_index(configs@, name@)],
        r matches Err(err) ==> (err matches RegistryError::NotFound(n) && n@ == name@),
{
    let n = String::from_str(name);
    match position_of(configs, &n) {
        Some(i) => Ok(configs[i].duplicate()),
        None => Err(RegistryError::NotFound(n)),
    }
}

/// Loads the entry called `name`, or the default entry where `name` is empty,
/// and makes it the default. Fails, changing nothing, where there is no such entry.
pub fn load_configs(configs: &mut Configs, name: &str) -> (r: Result<ConfigData, RegistryError>)
    ensures
        final(configs)@ == loaded(old(configs)@, name@),
        r is Ok <==> lookup(old(configs)@, name@) is Some,
        r matches Ok(e) ==> lookup(old(configs)@, name@) == Some(e),
        r matches Err(err) ==> (err matches RegistryError::NotFound(n) && n@ == target_of(
            old(configs)@,
            name@,
        )),
{
    let target = if name.unicode_len() == 0 {
        configs.configs_default.clone()
    } else {
        String::from_str(name)
    };
    if target.as_str().unicode_len() == 0 {
        return Err(RegistryError::NotFound(target));
    }
    match position_of(&configs.configs, &target) {
        Some(i) => {
            let found = configs.configs[i].duplicate();
            proof {
                lemma_first_index(configs.configs@, target@);
            }
            configs.configs_default = found.name.clone();
            Ok(found)
        },
        None => Err(RegistryError::NotFound(target)),
    }
}

/// Appends `entry`, unless an entry with its name is registered already.
pub fn add_config(configs: &mut Configs, entry: ConfigData) -> (r: Result<(), RegistryError>)
    ensures
        r is Ok <==> !has_name(old(configs)@.entries, entry.name@),
        r is Ok ==> final(configs)@ == (Registry {
            default: old(configs)@.default,
            entries: old(configs)@.entries.push(entry),
        }),
        r matches Err(err) ==> final(configs)@ == old(configs)@ && err == RegistryError::DuplicateName(
            entry.name,
        ),
{
    match position_of(&configs.configs, &entry.name) {
        Some(_) => Err(RegistryError::DuplicateName(entry.name)),
        None => {
            configs.configs.push(entry);
            Ok(())
        },
    }
}

/// Drops every entry called `name`; the default and the other entries stay.
pub fn remove_config(configs: &mut Configs, name: &str)
    ensures
        final(configs)@ == (Registry {
            default: old(configs)@.default,
            entries: without_name(old(configs)@.entries, name@),
        }),
{
    let n = String::from_str(name);
    let mut kept: Vec<ConfigData> = Vec::new();
    let mut i: usize = 0;
    while i < configs.configs.len()
        invariant
            i <= configs.configs.len(),
            n@ == name@,
            kept@ == without_name(configs.configs@.subrange(0, i as int), name@),
        decreases configs.configs.len() - i,
    {
        proof {
            lemma_without_name_step(configs.configs@, name@, i as int);
        }
        let same = configs.configs[i].name == n;
        if !same {
            let e = configs.configs[i].duplicate();
            kept.push(e);
        }
        i = i + 1;
    }
    assert(configs.configs@.subrange(0, i as int) =~= configs.configs@);
    configs.configs = kept;
}

/// Makes the entry called `name` the default; fails, changing nothing, where there is none.
pub fn set_default(configs: &mut Configs, name: &str) -> (r: Result<(), RegistryError>)
    ensures
        r is Ok <==> has_name(old(configs)@.entries, name@),
        r is Ok ==> final(configs)@ == (Registry {
            default: name@,
            entries: old(configs)@.entries,
        }),
        r is Err ==> final(configs)@ == old(configs)@,
        r matches Err(err) ==> (err matches RegistryError::NotFound(n) && n@ == name@),
{
    let n = String::from_str(name);
    match position_of(&configs.configs, &n) {
        Some(_) => {
            configs.configs_default = n;
            Ok(())
        },
        None => Err(RegistryError::NotFound(n)),
    }
}

} // verus!
