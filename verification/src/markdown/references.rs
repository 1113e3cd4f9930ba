//! Link reference definitions: the destinations that labels stand for.

use vstd::prelude::*;

verus! {

/// One definition: a label and the destination it stands for.
#[derive(Debug, PartialEq, Eq)]
pub struct Reference {
    pub label: String,
    pub destination: String,
}

/// The map that a sequence of definitions describes: a later definition of a
/// label replaces an earlier one.
pub open spec fn definitions_map(entries: Seq<Reference>) -> Map<Seq<char>, Seq<char>>
    decreases entries.len(),
{
    if entries.len() == 0 {
        Map::empty()
    } else {
        definitions_map(entries.drop_last()).insert(
            entries.last().label@,
            entries.last().destination@,
        )
    }
}

/// The definitions known to a document, from label to destination.
#[derive(Debug, PartialEq, Eq)]
pub struct References {
    entries: Vec<Reference>,
}

impl View for References {
    type V = Map<Seq<char>, Seq<char>>;

    closed spec fn view(&self) -> Map<Seq<char>, Seq<char>> {
        definitions_map(self.entries@)
    }
}

/// A label that none of the entries after `from` carries is looked up in the
/// entries up to `from` alone.
proof fn lemma_lookup_skips(entries: Seq<Reference>, label: Seq<char>, from: int)
    requires
        0 <= from <= entries.len(),
        forall|j: int| from <= j < entries.len() ==> entries[j].label@ != label,
    ensures
        definitions_map(entries).contains_key(label) == definitions_map(
            entries.take(from),
        ).contains_key(label),
        definitions_map(entries).contains_key(label) ==> definitions_map(entries)[label]
            == definitions_map(entries.take(from))[label],
    decreases entries.len() - from,
{
    if from == entries.len() {
        assert(entries.take(from) =~= entries);
    } else {
        lemma_lookup_skips(entries.drop_last(), label, from);
        assert(entries.drop_last().take(from) =~= entries.take(from));
    }
}

/// Replacing the destination of the last entry that carries `label` is an
/// insertion into the map.
proof fn lemma_replace_is_insert(entries: Seq<Reference>, at: int, entry: Reference)
    requires
        0 <= at < entries.len(),
        entries[at].label@ == entry.label@,
        forall|j: int| at < j < entries.len() ==> entries[j].label@ != entry.label@,
    ensures
        definitions_map(entries.update(at, entry)) == definitions_map(entries).insert(
            entry.label@,
            entry.destination@,
        ),
    decreases entries.len(),
{
    let updated = entries.update(at, entry);
    if at == entries.len() - 1 {
        assert(updated.drop_last() =~= entries.drop_last());
    } else {
        lemma_replace_is_insert(entries.drop_last(), at, entry);
        assert(updated.drop_last() =~= entries.drop_last().update(at, entry));
    }
}

impl References {
    /// No definitions.
    pub fn new() -> (refs: Self)
        ensures
            refs@ == Map::<Seq<char>, Seq<char>>::empty(),
    {
        References { entries: Vec::new() }
    }

    /// The index of the last entry that carries `label`.
    fn position(&self, label: &String) -> (found: Option<usize>)
        ensures
            match found {
                Some(at) => {
                    &&& at < self.entries.len()
                    &&& self.entries[at as int].label@ == label@
                    &&& forall|j: int|
                        at < j < self.entries.len() ==> self.entries[j].label@ != label@
                },
                None => forall|j: int|
                    0 <= j < self.entries.len() ==> self.entries[j].label@ != label@,
            },
    {
        let mut i: usize = self.entries.len();
        while i > 0
            invariant
                i <= self.entries.len(),
                forall|j: int| i <= j < self.entries.len() ==> self.entries[j].label@ != label@,
            decreases i,
        {
            i -= 1;
            if self.entries[i].label == *label {
                return Some(i);
            }
        }
        None
    }

    /// The destination that `label` stands for, if it is defined.
    pub fn destination(&self, label: &str) -> (found: Option<String>)
        ensures
            match found {
                Some(destination) => self@.contains_key(label@) && destination@ == self@[label@],
                None => !self@.contains_key(label@),
            },
    {
        let owned = label.to_owned();
        match self.position(&owned) {
            Some(at) => {
                proof {
                    lemma_lookup_skips(self.entries@, label@, at + 1);
                }
                Some(self.entries[at].destination.clone())
            },
            None => {
                proof {
                    lemma_lookup_skips(self.entries@, label@, 0);
                }
                None
            },
        }
    }

    /// Whether `label` is defined.
    pub fn contains(&self, label: &str) -> (found: bool)
        ensures
            found == self@.contains_key(label@),
    {
        self.destination(label).is_some()
    }

    /// Defines `label` as `destination`, replacing an earlier definition.
    pub fn insert(&mut self, label: String, destination: String)
        ensures
            final(self)@ == old(self)@.insert(label@, destination@),
    {
        let found = self.position(&label);
        let entry = Reference { label, destination };
        match found {
            Some(at) => {
                proof {
                    lemma_replace_is_insert(self.entries@, at as int, entry);
                }
                self.entries[at] = entry;
            },
            None => {
                assert(self.entries@.push(entry).drop_last() =~= self.entries@);
                self.entries.push(entry);
            },
        }
    }

    /// Adds the definitions of `more` in order, each replacing an earlier
    /// definition of its label.
    pub fn extend(&mut self, more: &Vec<Reference>)
        ensures
            final(self)@ == old(self)@.union_prefer_right(definitions_map(more@)),
    {
        let mut i: usize = 0;
        while i < more.len()
            invariant
                i <= more.len(),
                self@ == old(self)@.union_prefer_right(definitions_map(more@.take(i as int))),
            decreases more.len() - i,
        {
            self.insert(more[i].label.clone(), more[i].destination.clone());
            proof {
                let entry = more@[i as int];
                assert(more@.take(i + 1).drop_last() =~= more@.take(i as int));
            }
            i += 1;
        }
        assert(more@.take(more.len() as int) =~= more@);
    }

    /// A copy with the same definitions.
    pub fn duplicate(&self) -> (copy: Self)
        ensures
            copy@ == self@,
    {
        let mut entries: Vec<Reference> = Vec::new();
        let mut i: usize = 0;
        while i < self.entries.len()
            invariant
                i <= self.entries.len(),
                entries@ == self.entries@.take(i as int),
            decreases self.entries.len() - i,
        {
            let entry = Reference {
                label: self.entries[i].label.clone(),
                destination: self.entries[i].destination.clone(),
            };
            entries.push(entry);
            i += 1;
        }
        assert(self.entries@.take(self.entries.len() as int) =~= self.entries@);
        References { entries }
    }
}

} // verus!
