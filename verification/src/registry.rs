//! The registry of interface elements, by name.

use vstd::prelude::*;

verus! {

/// One registered element: its name and the key under which the caller
/// keeps the element itself.
pub struct RegisteredElement {
    pub name: String,
    pub element: u64,
}

/// The model of one registered element.
pub struct Entry {
    pub name: Seq<char>,
    pub element: u64,
}

/// Where `name` stands among `entries`: the first position that holds it,
/// or the length where none does.
pub open spec fn position(entries: Seq<Entry>, name: Seq<char>) -> int
    decreases entries.len(),
{
    if entries.len() == 0 {
        0
    } else if entries[0].name == name {
        0
    } else {
        1 + position(entries.drop_first(), name)
    }
}

/// Some entry carries `name`.
pub open spec fn present(entries: Seq<Entry>, name: Seq<char>) -> bool {
    exists|i: int| 0 <= i < entries.len() && #[trigger] entries[i].name == name
}

/// No two entries carry the same name.
pub open spec fn distinct(entries: Seq<Entry>) -> bool {
    forall|i: int, j: int|
        0 <= i < j < entries.len() ==> #[trigger] entries[i].name != #[trigger] entries[j].name
}

/// The element registered under `name`, if there is one.
pub open spec fn lookup(entries: Seq<Entry>, name: Seq<char>) -> Option<u64> {
    if present(entries, name) {
        Some(entries[position(entries, name)].element)
    } else {
        None
    }
}

/// `position` finds the name where it is present, and runs to the end where
/// it is not.
pub proof fn position_finds(entries: Seq<Entry>, name: Seq<char>)
    ensures
        0 <= position(entries, name) <= entries.len(),
        present(entries, name) <==> position(entries, name) < entries.len(),
        position(entries, name) < entries.len() ==> entries[position(entries, name)].name == name,
        forall|i: int| 0 <= i < position(entries, name) ==> (#[trigger] entries[i]).name != name,
    decreases entries.len(),
{
    if entries.len() == 0 {
    } else if entries[0].name == name {
    } else {
        let rest = entries.drop_first();
        position_finds(rest, name);
        assert forall|i: int| 0 <= i < position(entries, name) implies (#[trigger] entries[i]).name != name by {
            if i > 0 {
                assert(entries[i] == rest[i - 1]);
            }
        }
        if present(entries, name) {
            let i = choose|i: int| 0 <= i < entries.len() && #[trigger] entries[i].name == name;
            assert(rest[i - 1].name == name);
        }
        if position(rest, name) < rest.len() {
            assert(entries[position(rest, name) + 1] == rest[position(rest, name)]);
        }
    }
}

/// A name that has just been added is found, with the element it was added
/// with, and every other name is found as before.
pub proof fn added_is_found(entries: Seq<Entry>, name: Seq<char>, element: u64)
    requires
        distinct(entries),
        !present(entries, name),
    ensures
        distinct(entries.push(Entry { name, element })),
        lookup(entries.push(Entry { name, element }), name) == Some(element),
        forall|other: Seq<char>|
            other != name ==> #[trigger] lookup(entries.push(Entry { name, element }), other) == lookup(
                entries,
                other,
            ),
{
    let after = entries.push(Entry { name, element });
    assert(after[entries.len() as int].name == name);
    position_finds(after, name);
    assert forall|i: int| 0 <= i < entries.len() implies (#[trigger] after[i]).name != name by {
        assert(after[i] == entries[i]);
    }
    assert forall|other: Seq<char>| other != name implies #[trigger] lookup(after, other) == lookup(
        entries,
        other,
    ) by {
        position_finds(after, other);
        position_finds(entries, other);
        if present(entries, other) {
            let i = position(entries, other);
            assert(after[i].name == other);
            let j = position(after, other);
            assert(after[j] == entries[j]);
            if i < j {
                assert(after[i] == entries[i]);
            }
        }
        if present(after, other) {
            let j = position(after, other);
            assert(entries[j] == after[j]);
        }
    }
}

/// A name that has just been removed is found no more, and every other
/// name is found as before.
pub proof fn removed_is_absent(entries: Seq<Entry>, name: Seq<char>)
    requires
        distinct(entries),
        present(entries, name),
    ensures
        distinct(entries.remove(position(entries, name))),
        !present(entries.remove(position(entries, name)), name),
        lookup(entries.remove(position(entries, name)), name).is_none(),
        forall|other: Seq<char>|
            other != name ==> #[trigger] lookup(entries.remove(position(entries, name)), other) == lookup(
                entries,
                other,
            ),
{
    position_finds(entries, name);
    let at = position(entries, name);
    let after = entries.remove(at);
    assert forall|i: int| 0 <= i < after.len() implies (#[trigger] after[i]).name != name by {
        if i < at {
            assert(after[i] == entries[i]);
        } else {
            assert(after[i] == entries[i + 1]);
        }
    }
    assert forall|other: Seq<char>| other != name implies #[trigger] lookup(after, other) == lookup(
        entries,
        other,
    ) by {
        position_finds(after, other);
        position_finds(entries, other);
        if present(entries, other) {
            let i = position(entries, other);
            let moved = if i < at { i } else { i - 1 };
            assert(after[moved] == entries[i]);
            let j = position(after, other);
            let back = if j < at { j } else { j + 1 };
            assert(after[j] == entries[back]);
        }
        if present(after, other) {
            let j = position(after, other);
            let back = if j < at { j } else { j + 1 };
            assert(after[j] == entries[back]);
        }
    }
}

/// The registry: named elements, in the order in which they were added.
pub struct ElementRegistry {
    entries: Vec<RegisteredElement>,
}

impl ElementRegistry {
    /// The registered elements, oldest first.
    pub closed spec fn entries(&self) -> Seq<Entry> {
        Seq::new(
            self.entries@.len(),
            |i: int| Entry { name: self.entries@[i].name@, element: self.entries@[i].element },
        )
    }

    /// No name is registered twice.
    pub open spec fn wf(&self) -> bool {
        distinct(self.entries())
    }

    /// A registry without elements.
    pub fn new() -> (registry: ElementRegistry)
        ensures
            registry.wf(),
            registry.entries() == Seq::<Entry>::empty(),
    {
        let registry = ElementRegistry { entries: Vec::new() };
        assert(registry.entries() =~= Seq::<Entry>::empty());
        registry
    }

    /// Where `name` stands in the registry, or the number of elements.
    fn find(&self, name: &str) -> (at: usize)
        ensures
            at as int == position(self.entries(), name@),
            at <= self.entries@.len(),
            self.entries().len() == self.entries@.len(),
    {
        let key: String = name.to_owned();
        let mut i: usize = 0;
        while i < self.entries.len()
            invariant
                i <= self.entries@.len(),
                key@ == name@,
                self.entries().len() == self.entries@.len(),
                forall|k: int| 0 <= k < i ==> (#[trigger] self.entries()[k]).name != name@,
            decreases self.entries@.len() - i,
        {
            if self.entries[i].name == key {
                proof {
                    assert(self.entries()[i as int].name == name@);
                    position_finds(self.entries(), name@);
                }
                return i;
            }
            i = i + 1;
        }
        proof {
            position_finds(self.entries(), name@);
        }
        i
    }

    /// How many elements are registered.
    pub fn len(&self) -> (count: usize)
        ensures
            count == self.entries().len(),
    {
        self.entries.len()
    }

    /// The element registered under `name`, if there is one.
    pub fn get(&self, name: &str) -> (element: Option<u64>)
        ensures
            element == lookup(self.entries(), name@),
    {
        let at = self.find(name);
        proof {
            position_finds(self.entries(), name@);
        }
        if at < self.entries.len() {
            Some(self.entries[at].element)
        } else {
            None
        }
    }

    /// Registers `element` under `name` unless the name is taken, and says
    /// whether it did. A taken name keeps its element.
    pub fn add(&mut self, name: &str, element: u64) -> (added: bool)
        requires
            old(self).wf(),
        ensures
            final(self).wf(),
            added == !present(old(self).entries(), name@),
            final(self).entries() == if added {
                old(self).entries().push(Entry { name: name@, element })
            } else {
                old(self).entries()
            },
    {
        let at = self.find(name);
        proof {
            position_finds(self.entries(), name@);
        }
        if at < self.entries.len() {
            false
        } else {
            self.entries.push(RegisteredElement { name: name.to_owned(), element });
            assert(self.entries() =~= old(self).entries().push(Entry { name: name@, element }));
            true
        }
    }

    /// Takes `name` out of the registry, and says whether it was there.
    pub fn remove(&mut self, name: &str) -> (removed: bool)
        requires
            old(self).wf(),
        ensures
            final(self).wf(),
            removed == present(old(self).entries(), name@),
            final(self).entries() == if removed {
                old(self).entries().remove(position(old(self).entries(), name@))
            } else {
                old(self).entries()
            },
    {
        let at = self.find(name);
        proof {
            position_finds(self.entries(), name@);
        }
        if at < self.entries.len() {
            self.entries.remove(at);
            assert(self.entries() =~= old(self).entries().remove(at as int));
            true
        } else {
            false
        }
    }

    /// The keys of all registered elements, oldest first.
    pub fn elements(&self) -> (keys: Vec<u64>)
        ensures
            keys@ == self.entries().map_values(|e: Entry| e.element),
    {
        let mut keys: Vec<u64> = Vec::new();
        let mut i: usize = 0;
        while i < self.entries.len()
            invariant
                i <= self.entries@.len(),
                self.entries().len() == self.entries@.len(),
                keys@ == self.entries().take(i as int).map_values(|e: Entry| e.element),
            decreases self.entries@.len() - i,
        {
            keys.push(self.entries[i].element);
            assert(self.entries().take(i + 1) =~= self.entries().take(i as int).push(self.entries()[i as int]));
            assert(self.entries().take(i + 1).map_values(|e: Entry| e.element) =~= self.entries().take(
                i as int,
            ).map_values(|e: Entry| e.element).push(self.entries()[i as int].element));
            i = i + 1;
        }
        assert(self.entries().take(i as int) =~= self.entries());
        keys
    }
}

} // verus!
