//! The store of named definitions, by kind and name.

use vstd::prelude::*;
use crate::block::Block;
use crate::data::character_templates::CharacterTemplate;
use crate::data::regions::Region;
use crate::helpers::{dup_diags, dup_error};
use crate::index::{entry_at, NameIndex};
use crate::item::{lemma_ordinal_injective, Item};
use crate::report::{DiagnosticView, Sink};
use crate::token::Token;

verus! {

/// How the definitions of a kind are validated.
#[derive(Debug)]
pub enum DbKind {
    /// Definitions that are only looked up by name.
    Plain,
    CharacterTemplate(CharacterTemplate),
    Region(Region),
}

/// One stored definition.
#[derive(Debug)]
pub struct DbEntry {
    pub kind: Item,
    pub key: Token,
    pub block: Block,
    pub validator: DbKind,
}

/// The definitions that were loaded, each under its kind and name.
pub struct Db {
    index: NameIndex,
    entries: Vec<DbEntry>,
}

/// What `add` reports: a definition that takes the name of another of the
/// same or of a higher precedence is a duplicate; one of a higher
/// precedence overrides in silence.
pub open spec fn add_diags(kind: Item, key: Token, other: Option<DbEntry>) -> Seq<DiagnosticView> {
    match other {
        Some(e) => if e.key.loc().kind.rank() >= key.loc().kind.rank() {
            dup_diags(*key.loc(), *e.key.loc(), kind.name()@)
        } else {
            Seq::empty()
        },
        None => Seq::empty(),
    }
}

impl Db {
    #[verifier::type_invariant]
    closed spec fn inv(&self) -> bool {
        forall|k: (u8, Seq<char>)| #[trigger]
            self.index@.contains_key(k) ==> {
                &&& self.index@[k] < self.entries@.len()
                &&& self.entries@[self.index@[k] as int].kind.ordinal() == k.0
                &&& self.entries@[self.index@[k] as int].key@ == k.1
            }
    }

    /// The stored definitions, in the order of their first loading.
    pub closed spec fn entries(&self) -> Seq<DbEntry> {
        self.entries@
    }

    /// The position of the definition of the kind and name.
    pub closed spec fn position(&self, kind: Item, name: Seq<char>) -> Option<usize> {
        entry_at(self.index@, (kind.ordinal(), name))
    }

    /// The definition of the kind and name.
    pub open spec fn lookup(&self, kind: Item, name: Seq<char>) -> Option<DbEntry> {
        match self.position(kind, name) {
            Some(i) => Some(self.entries()[i as int]),
            None => None,
        }
    }

    /// Whether a definition of the kind and name is stored.
    pub open spec fn has(&self, kind: Item, name: Seq<char>) -> bool {
        self.position(kind, name) is Some
    }

    /// A store without definitions.
    pub fn new() -> (r: Db)
        ensures
            r.entries().len() == 0,
            forall|kind: Item, name: Seq<char>| !r.has(kind, name),
    {
        Db { index: NameIndex::new(), entries: Vec::new() }
    }

    /// The position of the definition of the kind and name.
    pub fn find(&self, kind: Item, name: &str) -> (r: Option<usize>)
        ensures
            r == self.position(kind, name@),
            r matches Some(i) ==> i < self.entries().len() && self.entries()[i as int].kind == kind
                && self.entries()[i as int].key@ == name@,
    {
        proof {
            use_type_invariant(self);
        }
        let r = self.index.get(kind.ordinal(), name);
        proof {
            if let Some(i) = r {
                assert(self.index@.contains_key((kind.ordinal(), name@)));
                lemma_ordinal_injective(self.entries@[i as int].kind, kind);
            }
        }
        r
    }

    /// Whether a definition of the kind and name is stored.
    pub fn is_defined(&self, kind: Item, name: &str) -> (r: bool)
        ensures
            r == self.has(kind, name@),
    {
        self.find(kind, name).is_some()
    }

    /// The definition of the kind and name.
    pub fn get(&self, kind: Item, name: &str) -> (r: Option<&DbEntry>)
        ensures
            r == (match self.lookup(kind, name@) {
                Some(e) => Some(&e),
                None => None,
            }),
    {
        match self.find(kind, name) {
            Some(i) => Some(&self.entries[i]),
            None => None,
        }
    }

    /// The number of stored definitions.
    pub fn len(&self) -> (n: usize)
        ensures
            n == self.entries().len(),
    {
        self.entries.len()
    }

    /// The definition at a position.
    pub fn entry(&self, i: usize) -> (r: &DbEntry)
        requires
            i < self.entries().len(),
        ensures
            *r == self.entries()[i as int],
    {
        &self.entries[i]
    }

    /// Stores a definition under its kind and the text of its key. It takes
    /// the place of a definition that had the kind and name before.
    pub fn add(&mut self, kind: Item, key: Token, block: Block, validator: DbKind, sink: &mut Sink)
        ensures
            final(self).lookup(kind, key@) == Some(DbEntry { kind, key, block, validator }),
            forall|k: Item, n: Seq<char>|
                !(k == kind && n == key@) ==> #[trigger] final(self).position(k, n) == old(self).position(k, n),
            final(self).entries() == (match old(self).position(kind, key@) {
                Some(i) => old(self).entries().update(i as int, DbEntry { kind, key, block, validator }),
                None => old(self).entries().push(DbEntry { kind, key, block, validator }),
            }),
            final(sink)@ == old(sink)@ + add_diags(kind, key, old(self).lookup(kind, key@)),
    {
        proof {
            use_type_invariant(&*self);
        }
        let found = self.find(kind, key.as_str());
        let ghost entry = DbEntry { kind, key, block, validator };
        let mut taken = Db::new();
        std::mem::swap(self, &mut taken);
        let Db { mut index, mut entries } = taken;
        match found {
            Some(i) => {
                let other = &entries[i];
                if other.key.loc().kind.rank() >= key.loc().kind.rank() {
                    dup_error(&key, &other.key, kind.name(), sink);
                } else {
                    assert(sink@ + Seq::<DiagnosticView>::empty() =~= sink@);
                }
                entries[i] = DbEntry { kind, key, block, validator };
                assert(index@.contains_key((kind.ordinal(), entry.key@)));
            },
            None => {
                assert(sink@ + Seq::<DiagnosticView>::empty() =~= sink@);
                let n = entries.len();
                entries.push(DbEntry { kind, key, block, validator });
                let _ = index.insert(kind.ordinal(), entries[n].key.as_str(), n);
            },
        }
        *self = Db { index, entries };
        proof {
            assert forall|k: Item, n: Seq<char>| !(k == kind && n == entry.key@) implies #[trigger] self.position(
                k,
                n,
            ) == old(self).position(k, n) by {
                if k.ordinal() == kind.ordinal() {
                    lemma_ordinal_injective(k, kind);
                }
            }
        }
    }
}

} // verus!
