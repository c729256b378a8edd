//! The registry of native functions: a map from names to handlers, built
//! once from a fixed table and read ever after.

use vstd::prelude::*;
use vstd::string::StringExecFns;

verus! {

/// A handler that a native function's name can stand for.
#[derive(Clone, Copy, Debug, PartialEq, Eq, Structural)]
pub enum NativeFn {
    /// The privileged network scan.
    Nmap,
    /// The logging handler.
    Log,
}

/// One registration: a name and the handler it stands for.
#[derive(Debug, PartialEq, Eq)]
pub struct Entry {
    pub name: String,
    pub handler: NativeFn,
}

/// Whether the entry at `i` carries the name `key`.
pub open spec fn has_name(entries: Seq<Entry>, key: Seq<char>, i: int) -> bool {
    0 <= i < entries.len() && entries[i].name@ == key
}

/// Whether no name occurs twice among the entries.
pub open spec fn distinct_names(entries: Seq<Entry>) -> bool {
    forall|i: int, j: int|
        0 <= i < j < entries.len() ==> (#[trigger] entries[i]).name@ != (#[trigger] entries[j]).name@
}

/// The names of the entries, in their order.
pub open spec fn entry_names(entries: Seq<Entry>) -> Seq<Seq<char>> {
    Seq::new(entries.len(), |i: int| entries[i].name@)
}

/// The map that the entries spell out.
pub open spec fn entry_map(entries: Seq<Entry>) -> Map<Seq<char>, NativeFn> {
    Map::new(
        |key: Seq<char>| exists|i: int| has_name(entries, key, i),
        |key: Seq<char>| entries[choose|i: int| has_name(entries, key, i)].handler,
    )
}

/// With distinct names, the entry found under a name is the entry that
/// carries it.
proof fn lemma_entry_at(entries: Seq<Entry>, i: int)
    requires
        distinct_names(entries),
        0 <= i < entries.len(),
    ensures
        entry_map(entries).contains_key(entries[i].name@),
        entry_map(entries)[entries[i].name@] == entries[i].handler,
{
    let key = entries[i].name@;
    assert(has_name(entries, key, i));
    let chosen = choose|j: int| has_name(entries, key, j);
    if chosen < i {
        assert(entries[chosen].name@ != entries[i].name@);
    } else if i < chosen {
        assert(entries[i].name@ != entries[chosen].name@);
    }
}

/// Appending an entry under a name that is not yet taken adds it to the
/// map and keeps the names distinct.
proof fn lemma_push_entry(entries: Seq<Entry>, entry: Entry)
    requires
        distinct_names(entries),
        !entry_map(entries).contains_key(entry.name@),
    ensures
        distinct_names(entries.push(entry)),
        entry_map(entries.push(entry)) == entry_map(entries).insert(entry.name@, entry.handler),
{
    let after = entries.push(entry);
    let last = entries.len() as int;
    assert forall|i: int, j: int| 0 <= i < j < after.len() implies (#[trigger] after[i]).name@ != (
    #[trigger] after[j]).name@ by {
        if j == last {
            assert(has_name(entries, entries[i].name@, i));
        } else {
            assert(entries[i].name@ != entries[j].name@);
        }
    }
    let target = entry_map(entries).insert(entry.name@, entry.handler);
    assert forall|key: Seq<char>| entry_map(after).contains_key(key) <==> target.contains_key(
        key,
    ) by {
        if entry_map(after).contains_key(key) {
            let i = choose|i: int| has_name(after, key, i);
            if i < last {
                assert(has_name(entries, key, i));
            }
        }
        if target.contains_key(key) {
            if key == entry.name@ {
                assert(has_name(after, key, last));
            } else {
                let i = choose|i: int| has_name(entries, key, i);
                assert(has_name(after, key, i));
            }
        }
    }
    assert forall|key: Seq<char>| entry_map(after).contains_key(key) implies entry_map(after)[key]
        == target[key] by {
        let i = choose|i: int| has_name(after, key, i);
        lemma_entry_at(after, i);
        if i < last {
            lemma_entry_at(entries, i);
        }
    }
    assert(entry_map(after) =~= target);
}

/// Giving the entry at `i` another handler changes the map at its name
/// and nowhere else, and keeps the names distinct.
proof fn lemma_update_entry(entries: Seq<Entry>, i: int, entry: Entry)
    requires
        distinct_names(entries),
        0 <= i < entries.len(),
        entry.name@ == entries[i].name@,
    ensures
        distinct_names(entries.update(i, entry)),
        entry_map(entries.update(i, entry)) == entry_map(entries).insert(
            entry.name@,
            entry.handler,
        ),
{
    let after = entries.update(i, entry);
    assert forall|a: int, b: int| 0 <= a < b < after.len() implies (#[trigger] after[a]).name@ != (
    #[trigger] after[b]).name@ by {
        assert(entries[a].name@ != entries[b].name@);
    }
    let target = entry_map(entries).insert(entry.name@, entry.handler);
    assert forall|key: Seq<char>| entry_map(after).contains_key(key) <==> target.contains_key(
        key,
    ) by {
        if entry_map(after).contains_key(key) {
            let j = choose|j: int| has_name(after, key, j);
            assert(has_name(entries, key, j));
        }
        if target.contains_key(key) {
            if key == entry.name@ {
                assert(has_name(after, key, i));
            } else {
                let j = choose|j: int| has_name(entries, key, j);
                assert(has_name(after, key, j));
            }
        }
    }
    assert forall|key: Seq<char>| entry_map(after).contains_key(key) implies entry_map(after)[key]
        == target[key] by {
        let j = choose|j: int| has_name(after, key, j);
        lemma_entry_at(after, j);
        if j != i {
            lemma_entry_at(entries, j);
        }
    }
    assert(entry_map(after) =~= target);
}

/// With distinct names, the names are as many as the map has keys, none
/// occurs twice, and together they are the keys of the map.
proof fn lemma_names_are_keys(entries: Seq<Entry>)
    requires
        distinct_names(entries),
    ensures
        entry_names(entries).no_duplicates(),
        entry_names(entries).to_set() == entry_map(entries).dom(),
        entry_map(entries).dom().finite(),
        entry_map(entries).dom().len() == entries.len(),
{
    let names = entry_names(entries);
    assert forall|i: int, j: int| 0 <= i < names.len() && 0 <= j < names.len() && i != j implies names[i]
        != names[j] by {
        if i < j {
            assert(entries[i].name@ != entries[j].name@);
        } else {
            assert(entries[j].name@ != entries[i].name@);
        }
    }
    assert forall|key: Seq<char>| names.to_set().contains(key) <==> entry_map(
        entries,
    ).dom().contains(key) by {
        if names.to_set().contains(key) {
            let i = choose|i: int| 0 <= i < names.len() && names[i] == key;
            assert(has_name(entries, key, i));
        }
        if entry_map(entries).dom().contains(key) {
            let i = choose|i: int| has_name(entries, key, i);
            assert(names[i] == key);
        }
    }
    assert(names.to_set() =~= entry_map(entries).dom());
    names.unique_seq_to_set();
    vstd::seq_lib::seq_to_set_is_finite(names);
}

/// A map from the names of native functions to their handlers. In a well
/// formed registry no name occurs twice.
#[derive(Debug, PartialEq, Eq)]
pub struct Registry {
    entries: Vec<Entry>,
}

impl View for Registry {
    type V = Map<Seq<char>, NativeFn>;

    closed spec fn view(&self) -> Map<Seq<char>, NativeFn> {
        entry_map(self.entries@)
    }
}

impl Registry {
    /// Whether the registry is well formed: no name occurs twice.
    pub closed spec fn wf(&self) -> bool {
        distinct_names(self.entries@)
    }

    /// The registered names, in the order of their first registration.
    pub closed spec fn spec_names(&self) -> Seq<Seq<char>> {
        entry_names(self.entries@)
    }

    /// A registry without entries.
    pub fn new() -> (registry: Registry)
        ensures
            registry.wf(),
            registry@ == Map::<Seq<char>, NativeFn>::empty(),
            registry.spec_names() == Seq::<Seq<char>>::empty(),
    {
        let registry = Registry { entries: Vec::new() };
        assert(registry@ =~= Map::<Seq<char>, NativeFn>::empty());
        assert(registry.spec_names() =~= Seq::<Seq<char>>::empty());
        registry
    }

    /// Whether the registry is well formed, found out by comparing the
    /// names with one another.
    pub fn is_well_formed(&self) -> (yes: bool)
        ensures
            yes == self.wf(),
    {
        let mut j: usize = 0;
        while j < self.entries.len()
            invariant
                j <= self.entries.len(),
                forall|a: int, b: int|
                    0 <= a < b < j ==> (#[trigger] self.entries@[a]).name@ != (
                    #[trigger] self.entries@[b]).name@,
            decreases self.entries.len() - j,
        {
            let mut i: usize = 0;
            while i < j
                invariant
                    i <= j < self.entries.len(),
                    forall|a: int|
                        0 <= a < i ==> (#[trigger] self.entries@[a]).name@
                            != self.entries@[j as int].name@,
                decreases j - i,
            {
                if self.entries[i].name == self.entries[j].name {
                    assert(!distinct_names(self.entries@)) by {
                        if distinct_names(self.entries@) {
                            assert(self.entries@[i as int].name@ != self.entries@[j as int].name@);
                        }
                    }
                    return false;
                }
                i = i + 1;
            }
            j = j + 1;
        }
        true
    }

    /// The index of the entry that carries `name`, if there is one.
    fn position(&self, name: &String) -> (found: Option<usize>)
        ensures
            match found {
                Some(i) => has_name(self.entries@, name@, i as int),
                None => !self@.contains_key(name@),
            },
    {
        let mut i: usize = 0;
        while i < self.entries.len()
            invariant
                i <= self.entries.len(),
                forall|j: int| 0 <= j < i ==> !has_name(self.entries@, name@, j),
            decreases self.entries.len() - i,
        {
            if self.entries[i].name == *name {
                return Some(i);
            }
            i = i + 1;
        }
        None
    }

    /// Registers `handler` under `name`. A handler registered under that
    /// name before is replaced.
    pub fn insert(&mut self, name: String, handler: NativeFn)
        requires
            old(self).wf(),
        ensures
            final(self).wf(),
            final(self)@ == old(self)@.insert(name@, handler),
            final(self).spec_names() == if old(self)@.contains_key(name@) {
                old(self).spec_names()
            } else {
                old(self).spec_names().push(name@)
            },
    {
        let entry = Entry { name, handler };
        match self.position(&entry.name) {
            Some(i) => {
                proof {
                    lemma_update_entry(self.entries@, i as int, entry);
                    assert(entry_names(self.entries@.update(i as int, entry)) =~= entry_names(
                        self.entries@,
                    ));
                }
                self.entries.set(i, entry);
            },
            None => {
                proof {
                    lemma_push_entry(self.entries@, entry);
                    assert(entry_names(self.entries@.push(entry)) =~= entry_names(
                        self.entries@,
                    ).push(entry.name@));
                }
                self.entries.push(entry);
            },
        }
    }

    /// The handler registered under `name`, if there is one.
    pub fn get(&self, name: &String) -> (handler: Option<NativeFn>)
        requires
            self.wf(),
        ensures
            handler == if self@.contains_key(name@) {
                Some(self@[name@])
            } else {
                None
            },
    {
        match self.position(name) {
            Some(i) => {
                proof {
                    lemma_entry_at(self.entries@, i as int);
                }
                Some(self.entries[i].handler)
            },
            None => None,
        }
    }

    /// The number of registered names.
    pub fn len(&self) -> (count: usize)
        requires
            self.wf(),
        ensures
            self@.dom().finite(),
            count == self@.dom().len(),
    {
        proof {
            lemma_names_are_keys(self.entries@);
        }
        self.entries.len()
    }

    /// The registered names. Each occurs once, and together they are the
    /// keys of the map.
    pub fn names(&self) -> (names: Vec<String>)
        requires
            self.wf(),
        ensures
            names.deep_view() == self.spec_names(),
            names.deep_view().no_duplicates(),
            names.deep_view().to_set() == self@.dom(),
    {
        proof {
            lemma_names_are_keys(self.entries@);
        }
        let mut names: Vec<String> = Vec::new();
        let mut i: usize = 0;
        while i < self.entries.len()
            invariant
                i <= self.entries.len(),
                names@.len() == i,
                names.deep_view() == entry_names(self.entries@).take(i as int),
            decreases self.entries.len() - i,
        {
            let ghost before = names;
            names.push(self.entries[i].name.clone());
            proof {
                let target = entry_names(self.entries@).take(i + 1);
                assert forall|j: int| 0 <= j < target.len() implies names.deep_view()[j]
                    == target[j] by {
                    if j < i {
                        assert(names@[j] == before@[j]);
                        assert(before.deep_view()[j] == entry_names(self.entries@).take(
                            i as int,
                        )[j]);
                    }
                }
                assert(names.deep_view() =~= target);
            }
            i = i + 1;
        }
        assert(entry_names(self.entries@).take(self.entries.len() as int) =~= entry_names(
            self.entries@,
        ));
        names
    }
}

/// The names of the fixed table, in the order of their registration.
pub open spec fn builtin_names() -> Seq<Seq<char>> {
    seq!["nmap"@, "log"@, "println!"@]
}

/// The fixed table of native functions: the scan under `nmap`, the
/// logging handler under `log` and under `println!`.
pub open spec fn builtin_table() -> Map<Seq<char>, NativeFn> {
    Map::<Seq<char>, NativeFn>::empty().insert("nmap"@, NativeFn::Nmap).insert(
        "log"@,
        NativeFn::Log,
    ).insert("println!"@, NativeFn::Log)
}

/// The three names of the fixed table differ from one another, so the
/// table has exactly three entries.
pub proof fn lemma_builtin_table()
    ensures
        builtin_table().dom() == set!["nmap"@, "log"@, "println!"@],
        builtin_table().dom().finite(),
        builtin_table().dom().len() == 3,
        builtin_table()["nmap"@] == NativeFn::Nmap,
        builtin_table()["log"@] == NativeFn::Log,
        builtin_table()["println!"@] == NativeFn::Log,
{
    reveal_strlit("nmap");
    reveal_strlit("log");
    reveal_strlit("println!");
    assert("nmap"@.len() == 4 && "log"@.len() == 3 && "println!"@.len() == 8);
    assert(builtin_table().dom() =~= set!["nmap"@, "log"@, "println!"@]);
    let none = Set::<Seq<char>>::empty();
    assert(set!["nmap"@, "log"@, "println!"@] =~= none.insert("nmap"@).insert("log"@).insert(
        "println!"@,
    ));
    assert(none.insert("nmap"@).len() == 1);
    assert(none.insert("nmap"@).insert("log"@).len() == 2);
}

/// Builds the fixed table of native functions.
pub fn impl_get_context() -> (table: Registry)
    ensures
        table.wf(),
        table@ == builtin_table(),
        table.spec_names() == builtin_names(),
{
    proof {
        lemma_builtin_table();
    }
    let mut table = Registry::new();
    table.insert(String::from_str("nmap"), NativeFn::Nmap);
    table.insert(String::from_str("log"), NativeFn::Log);
    table.insert(String::from_str("println!"), NativeFn::Log);
    assert(table.spec_names() =~= builtin_names());
    table
}

/// Builds the registry that serves the process: a map that holds each
/// entry of the fixed table once. Every build gives the same map.
pub fn impl_get_native_fn_map() -> (registry: Registry)
    ensures
        registry.wf(),
        registry@ == builtin_table(),
        registry.spec_names() == builtin_names(),
{
    let table = impl_get_context();
    let mut registry = Registry::new();
    let mut i: usize = 0;
    assert(entry_names(table.entries@.take(0)) =~= Seq::<Seq<char>>::empty());
    assert(entry_map(table.entries@.take(0)) =~= Map::<Seq<char>, NativeFn>::empty());
    while i < table.entries.len()
        invariant
            i <= table.entries.len(),
            distinct_names(table.entries@),
            registry.wf(),
            registry@ == entry_map(table.entries@.take(i as int)),
            registry.spec_names() == entry_names(table.entries@.take(i as int)),
        decreases table.entries.len() - i,
    {
        proof {
            let seen = table.entries@.take(i as int);
            let entry = table.entries@[i as int];
            assert(distinct_names(seen)) by {
                assert forall|a: int, b: int| 0 <= a < b < seen.len() implies (#[trigger] seen[a]).name@
                    != (#[trigger] seen[b]).name@ by {
                    assert(table.entries@[a].name@ != table.entries@[b].name@);
                }
            }
            if entry_map(seen).contains_key(entry.name@) {
                let j = choose|j: int| has_name(seen, entry.name@, j);
                assert(table.entries@[j].name@ != table.entries@[i as int].name@);
            }
            lemma_push_entry(seen, entry);
            assert(seen.push(entry) =~= table.entries@.take(i + 1));
            assert(entry_names(seen).push(entry.name@) =~= entry_names(
                table.entries@.take(i + 1),
            ));
        }
        registry.insert(table.entries[i].name.clone(), table.entries[i].handler);
        i = i + 1;
    }
    assert(table.entries@.take(table.entries.len() as int) =~= table.entries@);
    registry
}

} // verus!
