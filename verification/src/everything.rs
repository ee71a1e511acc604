//! The registry: everything that was loaded, and through which definitions
//! find each other by name.

use vstd::prelude::*;
use vstd::string::StringExecFns;
use crate::cache::{Caches, Site};
use crate::catalog::Catalog;
use crate::context::{ContextView, ScopeContext};
use crate::data::character_templates::template_out;
use crate::data::decisions::{decisions_diags, Decisions};
use crate::data::regions::region_diags;
use crate::data::scriptvalues::{all_alone_out, ScriptValues};
use crate::db::{Db, DbEntry, DbKind};
use crate::expression::{after, call_out, fresh_context, nothing, only, Outcome, State};
use crate::helpers::extends;
use crate::item::Item;
use crate::report::{diag, DiagnosticView, ErrorKey, Severity, Sink};
use crate::scopes::Scopes;
use crate::token::{Loc, Token};
use crate::validate::{comes_to, fits, kept, lemma_reports_after, reports, state};

verus! {

/// All that a validation run can look up.
pub struct Everything {
    pub db: Db,
    pub scriptvalues: ScriptValues,
    pub decisions: Decisions,
    pub catalog: Catalog,
}

/// The message about a reference to a definition that does not exist.
pub open spec fn missing_msg(kind: Item, name: Seq<char>) -> Seq<char> {
    kind.name()@ + " "@ + name + " not defined in "@ + kind.path()@
}

impl Everything {
    /// Whether a definition of the kind and name was loaded.
    pub open spec fn has_item(&self, kind: Item, name: Seq<char>) -> bool {
        match kind {
            Item::ScriptValue => self.scriptvalues.position(name) is Some,
            Item::Decision => self.decisions.position(name) is Some,
            _ => self.db.has(kind, name),
        }
    }

    /// Whether the definition of the kind and name is a character
    /// template.
    pub open spec fn is_template(&self, kind: Item, name: Seq<char>) -> bool {
        self.db.lookup(kind, name) matches Some(entry) && entry.validator is CharacterTemplate
    }

    /// What is reported of a reference to `name` at `loc`.
    pub open spec fn missing_diags(&self, kind: Item, name: Seq<char>, loc: Loc) -> Seq<DiagnosticView> {
        if self.has_item(kind, name) {
            Seq::empty()
        } else {
            seq![diag(Severity::Error, ErrorKey::MissingItem, loc, missing_msg(kind, name))]
        }
    }

    /// A registry without definitions, around a catalog.
    pub fn new(catalog: Catalog) -> (r: Everything)
        ensures
            r.catalog == catalog,
            r.scriptvalues.defs().len() == 0,
            r.decisions.defs().len() == 0,
            r.db.entries().len() == 0,
            forall|kind: Item, name: Seq<char>| !r.has_item(kind, name),
    {
        Everything { db: Db::new(), scriptvalues: ScriptValues::new(), decisions: Decisions::new(), catalog }
    }

    /// Whether a definition of the kind and name was loaded.
    pub fn item_exists(&self, kind: Item, name: &str) -> (r: bool)
        ensures
            r == self.has_item(kind, name@),
    {
        match kind {
            Item::ScriptValue => self.scriptvalues.is_defined(name),
            Item::Decision => self.decisions.is_defined(name),
            _ => self.db.is_defined(kind, name),
        }
    }

    /// Reports an error at `token` unless a definition of the kind and the
    /// name `name` was loaded.
    pub fn verify_exists_implied(&self, kind: Item, name: &str, token: &Token, sink: &mut Sink) -> (r: bool)
        ensures
            r == self.has_item(kind, name@),
            final(sink)@ == old(sink)@ + self.missing_diags(kind, name@, *token.loc()),
    {
        if self.item_exists(kind, name) {
            assert(sink@ + Seq::<DiagnosticView>::empty() =~= sink@);
            true
        } else {
            let mut msg = String::from_str(kind.name());
            msg.append(" ");
            msg.append(name);
            msg.append(" not defined in ");
            msg.append(kind.path());
            sink.error(token.loc(), ErrorKey::MissingItem, msg.as_str());
            assert(sink@ =~= old(sink)@ + self.missing_diags(kind, name@, *token.loc()));
            false
        }
    }

    /// Reports an error at `token` unless a definition of the kind is
    /// called what the token says.
    pub fn verify_exists(&self, kind: Item, token: &Token, sink: &mut Sink) -> (r: bool)
        ensures
            r == self.has_item(kind, token@),
            final(sink)@ == old(sink)@ + self.missing_diags(kind, token@, *token.loc()),
    {
        self.verify_exists_implied(kind, token.as_str(), token, sink)
    }
}

impl Everything {
    /// Empty caches for a validation run over this registry.
    pub fn new_caches(&self) -> (r: Caches)
        ensures
            fits(&r, self),
            forall|d: int, site: Site| !r.has(d, site),
    {
        Caches::new(self.scriptvalues.len())
    }

    /// Validates the definitions of the store that have a validation of
    /// their own, in the order of their first loading.
    pub fn validate_db(&self, caches: &mut Caches, sink: &mut Sink)
        requires
            fits(old(caches), self),
        ensures
            fits(final(caches), self),
            final(caches).holds_all_of(old(caches)),
            extends(final(sink)@, old(sink)@),
            reports(
                db_walk(self.db.entries(), self, state(fresh_context(), old(caches)), self.db.entries().len() as int),
                final(caches),
                final(sink)@,
                old(sink)@,
            ),
    {
        let ghost entries = self.db.entries();
        let ghost st0 = state(fresh_context(), old(caches));
        assert(sink@ + Seq::<DiagnosticView>::empty() =~= sink@);
        let mut i: usize = 0;
        while i < self.db.len()
            invariant
                i <= self.db.entries().len(),
                entries == self.db.entries(),
                st0 == state(fresh_context(), old(caches)),
                fits(caches, self),
                caches.holds_all_of(old(caches)),
                extends(sink@, old(sink)@),
                reports(db_walk(entries, self, st0, i as int), caches, sink@, old(sink)@),
            decreases self.db.entries().len() - i,
        {
            let ghost (k_mid, s_mid) = (*caches, sink@);
            let ghost before = db_walk(entries, self, st0, i as int);
            let entry = self.db.entry(i);
            match &entry.validator {
                DbKind::Plain => {
                    assert(sink@ + Seq::<DiagnosticView>::empty() =~= sink@);
                },
                DbKind::CharacterTemplate(ct) => {
                    ct.validate(&entry.key, &entry.block, self, caches, sink);
                },
                DbKind::Region(r) => {
                    r.validate(&entry.key, &entry.block, self, sink);
                },
            }
            proof {
                assert(before.st.with(fresh_context()) == state(fresh_context(), &k_mid));
                lemma_reports_after(
                    before,
                    entry_out(entries[i as int], self, before.st.with(fresh_context())),
                    caches,
                    old(sink)@,
                    s_mid,
                    sink@,
                );
            }
            i += 1;
        }
    }

    /// Validates the use of the definition of the kind that `key` names,
    /// at the call site of `key` and in the caller's context. Script values
    /// and character templates can be used so; for other kinds, and for a
    /// name that nothing has, nothing is done.
    pub fn validate_call(&self, kind: Item, key: &Token, sc: &mut ScopeContext, caches: &mut Caches, sink: &mut Sink)
        requires
            fits(old(caches), self),
        ensures
            kept(final(sc)@, old(sc)@, final(caches), old(caches), final(sink)@, old(sink)@),
            kind == Item::ScriptValue ==> final(sc)@ == old(sc)@,
            kind == Item::ScriptValue ==> comes_to(
                match self.scriptvalues.position(key@) {
                    Some(d) => call_out(d as int, *key, self, state(old(sc)@, old(caches))),
                    None => nothing(state(old(sc)@, old(caches))),
                },
                final(sc)@,
                final(caches),
                final(sink)@,
                old(sink)@,
            ),
            kind == Item::Decision ==> final(sc)@ == old(sc)@ && *final(caches) == *old(caches) && final(sink)@ == old(
                sink,
            )@,
            kind != Item::ScriptValue && kind != Item::Decision ==> (if self.is_template(kind, key@) {
                comes_to(
                    template_out(&self.db.lookup(kind, key@)->0.block, self, state(old(sc)@, old(caches))),
                    final(sc)@,
                    final(caches),
                    final(sink)@,
                    old(sink)@,
                )
            } else {
                final(sc)@ == old(sc)@ && *final(caches) == *old(caches) && final(sink)@ == old(sink)@
            }),
    {
        match kind {
            Item::ScriptValue => {
                self.scriptvalues.validate_call(key, self, sc, caches, sink);
            },
            Item::Decision => {},
            _ => {
                if let Some(entry) = self.db.get(kind, key.as_str()) {
                    match &entry.validator {
                        DbKind::CharacterTemplate(ct) => {
                            ct.validate_call(&entry.key, &entry.block, key, self, sc, caches, sink);
                        },
                        _ => {},
                    }
                }
            },
        }
    }

    /// Validates every definition of the registry, each once: the script
    /// values, then the decisions, then the definitions of the store.
    pub fn validate_all(&self, caches: &mut Caches, sink: &mut Sink)
        requires
            fits(old(caches), self),
        ensures
            fits(final(caches), self),
            final(caches).holds_all_of(old(caches)),
            extends(final(sink)@, old(sink)@),
            reports(all_out(self, state(fresh_context(), old(caches))), final(caches), final(sink)@, old(sink)@),
    {
        let ghost st0 = state(fresh_context(), old(caches));
        self.scriptvalues.validate(self, caches, sink);
        let ghost values = all_alone_out(self, st0, self.scriptvalues.defs().len() as int);
        let ghost s1 = sink@;
        let ghost k1 = *caches;
        self.decisions.validate(self, sink);
        let ghost decided = after(
            values,
            only(values.st, decisions_diags(self.decisions.defs(), self, self.decisions.defs().len() as int)),
        );
        let ghost s2 = sink@;
        assert(s2 =~= old(sink)@ + decided.diags);
        self.validate_db(caches, sink);
        proof {
            lemma_db_walk_context(self.db.entries(), self, decided.st, self.db.entries().len() as int);
            assert(decided.st.with(fresh_context()) == state(fresh_context(), &k1));
            lemma_reports_after(
                decided,
                db_walk(self.db.entries(), self, decided.st, self.db.entries().len() as int),
                caches,
                old(sink)@,
                s2,
                sink@,
            );
        }
    }
}

/// What the validation of a definition of the store by itself comes to: a
/// character template is validated in a context where the scope can be of
/// any type; a region is validated by itself; of other kinds nothing is
/// validated.
pub open spec fn entry_out(entry: DbEntry, data: &Everything, st: State) -> Outcome {
    match entry.validator {
        DbKind::Plain => nothing(st),
        DbKind::CharacterTemplate(_) => template_out(
            &entry.block,
            data,
            st.with(ContextView::unrooted(Scopes::all())),
        ),
        DbKind::Region(_) => only(st, region_diags(&entry.block, data)),
    }
}

/// What the validation of the first `n` definitions of the store comes
/// to, each by itself.
pub open spec fn db_walk(entries: Seq<DbEntry>, data: &Everything, st: State, n: int) -> Outcome
    decreases n,
{
    if n <= 0 || n > entries.len() {
        nothing(st)
    } else {
        let before = db_walk(entries, data, st, n - 1);
        after(before, entry_out(entries[n - 1], data, before.st.with(fresh_context())))
    }
}

/// The validation of the definitions of the store does not depend on the
/// context that it starts in, where there is a definition to validate.
pub proof fn lemma_db_walk_context(entries: Seq<DbEntry>, data: &Everything, st: State, n: int)
    requires
        0 <= n <= entries.len(),
    ensures
        db_walk(entries, data, st, n).diags == db_walk(entries, data, st.with(fresh_context()), n).diags,
        db_walk(entries, data, st, n).st.memo == db_walk(entries, data, st.with(fresh_context()), n).st.memo,
        db_walk(entries, data, st, n).st.fuel == db_walk(entries, data, st.with(fresh_context()), n).st.fuel,
    decreases n,
{
    if n > 0 {
        lemma_db_walk_context(entries, data, st, n - 1);
        let a = db_walk(entries, data, st, n - 1);
        let b = db_walk(entries, data, st.with(fresh_context()), n - 1);
        assert(a.st.with(fresh_context()) == b.st.with(fresh_context()));
    }
}

/// What the validation of every definition of the registry comes to: what
/// the script values come to, each by itself, then what is reported of the
/// decisions, then what the definitions of the store come to.
pub open spec fn all_out(data: &Everything, st: State) -> Outcome {
    let values = all_alone_out(data, st, data.scriptvalues.defs().len() as int);
    let decided = after(
        values,
        only(values.st, decisions_diags(data.decisions.defs(), data, data.decisions.defs().len() as int)),
    );
    after(decided, db_walk(data.db.entries(), data, decided.st, data.db.entries().len() as int))
}

} // verus!
