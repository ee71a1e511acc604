//! The memory of a validation run: for each named definition and each call
//! site, the scope context that the definition's validation inferred. It
//! bounds the work on definitions that refer to each other: each call site
//! of a definition leads to at most one validation of its body.

use vstd::prelude::*;
use crate::context::{ContextView, ScopeContext};
use crate::index::SiteIndex;

verus! {

/// A call site: file, line and column.
pub type Site = (u32, u32, u32);

/// The contexts that one definition's validation inferred, by call site.
pub struct SiteCache {
    index: SiteIndex,
    arena: Vec<ScopeContext>,
}

impl SiteCache {
    #[verifier::type_invariant]
    closed spec fn inv(&self) -> bool {
        &&& forall|site: Site| #[trigger]
            self.index@.contains_key(site) ==> self.index@[site] < self.arena@.len()
        &&& forall|a: Site, b: Site|
            #![trigger self.index@.contains_key(a), self.index@.contains_key(b)]
            self.index@.contains_key(a) && self.index@.contains_key(b) && self.index@[a] == self.index@[b] ==> a
                == b
    }

    /// The context stored for each call site.
    pub closed spec fn contexts(&self) -> Map<Site, ContextView> {
        Map::new(|site: Site| self.index@.contains_key(site), |site: Site| self.arena@[self.index@[site] as int]@)
    }

    /// How many call sites have a context.
    pub closed spec fn spent(&self) -> nat {
        self.arena@.len()
    }

    /// Whether the call site has a context.
    pub open spec fn has(&self, site: Site) -> bool {
        self.contexts().contains_key(site)
    }

    /// The number of stored contexts fits in a machine word.
    pub proof fn lemma_spent_bound(&self)
        ensures
            self.spent() <= usize::MAX,
    {
        assert(self.arena@.len() == self.arena.len());
    }

    /// A cache without contexts.
    pub fn new() -> (r: SiteCache)
        ensures
            r.contexts() == Map::<Site, ContextView>::empty(),
            r.spent() == 0,
    {
        let r = SiteCache { index: SiteIndex::new(), arena: Vec::new() };
        assert(r.contexts() =~= Map::<Site, ContextView>::empty());
        r
    }

    /// The context stored for the call site.
    pub fn get(&self, site: Site) -> (r: Option<&ScopeContext>)
        ensures
            r is Some == self.has(site),
            r matches Some(c) ==> c@ == self.contexts()[site],
    {
        proof {
            use_type_invariant(self);
        }
        match self.index.get(site) {
            Some(i) => {
                assert(self.index@.contains_key(site));
                Some(&self.arena[i])
            },
            None => None,
        }
    }

    /// Stores the context for the call site, in place of one that was
    /// stored for it before.
    pub fn put(&mut self, site: Site, sc: ScopeContext)
        ensures
            final(self).contexts() == old(self).contexts().insert(site, sc@),
            final(self).spent() == old(self).spent() + if old(self).has(site) { 0nat } else { 1nat },
    {
        proof {
            use_type_invariant(&*self);
        }
        let mut taken = SiteCache::new();
        std::mem::swap(self, &mut taken);
        let SiteCache { mut index, mut arena } = taken;
        match index.get(site) {
            Some(i) => {
                assert(index@.contains_key(site));
                arena[i] = sc;
            },
            None => {
                let n = arena.len();
                arena.push(sc);
                let _ = index.insert(site, n);
            },
        }
        *self = SiteCache { index, arena };
        assert(self.contexts() =~= old(self).contexts().insert(site, sc@));
    }
}

/// What is left of a budget of `usize::MAX` call sites for each definition,
/// where `n` definitions are counted and `spent` says how many sites each
/// has used.
pub open spec fn budget_upto(spent: Seq<nat>, n: int) -> int
    decreases n,
{
    if n <= 0 {
        0
    } else {
        budget_upto(spent, n - 1) + (usize::MAX - spent[n - 1])
    }
}

/// No budget is negative while no definition has used more than
/// `usize::MAX` sites.
pub proof fn lemma_budget_nonnegative(spent: Seq<nat>, n: int)
    requires
        0 <= n <= spent.len(),
        forall|i: int| 0 <= i < spent.len() ==> #[trigger] spent[i] <= usize::MAX,
    ensures
        budget_upto(spent, n) >= 0,
    decreases n,
{
    if n > 0 {
        lemma_budget_nonnegative(spent, n - 1);
    }
}

/// A definition that uses `more` further sites lowers the budget by `more`.
pub proof fn lemma_budget_update(spent: Seq<nat>, i: int, more: nat, n: int)
    requires
        0 <= i < spent.len(),
        0 <= n <= spent.len(),
    ensures
        budget_upto(spent.update(i, spent[i] + more), n) == budget_upto(spent, n) - if i < n {
            more as int
        } else {
            0
        },
    decreases n,
{
    if n > 0 {
        lemma_budget_update(spent, i, more, n - 1);
    }
}

/// What a run remembers: for each named script value, in the order of the
/// registry, the context that was inferred for each call site.
pub type Memo = Seq<Map<Site, ContextView>>;

/// The caches of a run, one for each named script value, in the order of
/// the registry.
pub struct Caches {
    pub list: Vec<SiteCache>,
}

impl Caches {
    /// What the caches remember.
    pub open spec fn memo(&self) -> Memo {
        Seq::new(self.list@.len(), |d: int| self.list@[d].contexts())
    }

    /// How many sites each definition has used.
    pub closed spec fn spent(&self) -> Seq<nat> {
        Seq::new(self.list@.len(), |i: int| self.list@[i].spent())
    }

    /// The call sites that are still free, over all definitions. Each
    /// validation of a definition's body uses one, so the budget bounds the
    /// validations that can still happen.
    pub closed spec fn budget(&self) -> int {
        budget_upto(self.spent(), self.list@.len() as int)
    }

    /// Whether definition `d` has a context for the call site.
    pub open spec fn has(&self, d: int, site: Site) -> bool {
        0 <= d < self.list@.len() && self.list@[d].has(site)
    }

    /// Whether the caches hold at least what `old` holds: as many
    /// definitions, and for each every site that it had a context for.
    pub open spec fn holds_all_of(&self, old: &Caches) -> bool {
        &&& self.list@.len() == old.list@.len()
        &&& self.budget() <= old.budget()
        &&& forall|d: int, site: Site| #[trigger] old.has(d, site) ==> self.has(d, site)
    }

    /// No budget is negative.
    pub proof fn lemma_budget_nonnegative(&self)
        ensures
            self.budget() >= 0,
    {
        assert forall|i: int| 0 <= i < self.spent().len() implies #[trigger] self.spent()[i] <= usize::MAX by {
            self.list@[i].lemma_spent_bound();
        }
        lemma_budget_nonnegative(self.spent(), self.list@.len() as int);
    }

    /// Empty caches for `n` definitions.
    pub fn new(n: usize) -> (r: Caches)
        ensures
            r.list@.len() == n,
            r.budget() >= 0,
            forall|d: int, site: Site| !r.has(d, site),
    {
        let mut list: Vec<SiteCache> = Vec::new();
        let mut i: usize = 0;
        while i < n
            invariant
                i <= n,
                list@.len() == i,
                forall|d: int| 0 <= d < i ==> (#[trigger] list@[d]).contexts() == Map::<Site, ContextView>::empty(),
            decreases n - i,
        {
            list.push(SiteCache::new());
            i += 1;
        }
        let r = Caches { list };
        proof {
            r.lemma_budget_nonnegative();
        }
        r
    }

    /// The number of definitions that the caches are for.
    pub fn len(&self) -> (n: usize)
        ensures
            n == self.list@.len(),
    {
        self.list.len()
    }

    /// The context that definition `d` has for the call site.
    pub fn get(&self, d: usize, site: Site) -> (r: Option<&ScopeContext>)
        requires
            d < self.list@.len(),
        ensures
            r is Some == self.has(d as int, site),
            r matches Some(c) ==> c@ == self.list@[d as int].contexts()[site],
    {
        self.list[d].get(site)
    }

    /// Stores the context that definition `d` has for the call site.
    pub fn put(&mut self, d: usize, site: Site, sc: ScopeContext)
        requires
            d < old(self).list@.len(),
        ensures
            final(self).list@.len() == old(self).list@.len(),
            final(self).list@[d as int].contexts() == old(self).list@[d as int].contexts().insert(site, sc@),
            forall|e: int| 0 <= e < old(self).list@.len() && e != d ==> final(self).list@[e] == old(self).list@[e],
            final(self).budget() == old(self).budget() - if old(self).has(d as int, site) { 0int } else { 1int },
            final(self).holds_all_of(old(self)),
            final(self).budget() >= 0,
            final(self).has(d as int, site),
    {
        let ghost before = self.spent();
        let ghost more: nat = if self.has(d as int, site) { 0 } else { 1 };
        self.list[d].put(site, sc);
        proof {
            assert(self.spent() =~= before.update(d as int, before[d as int] + more));
            lemma_budget_update(before, d as int, more, before.len() as int);
            self.lemma_budget_nonnegative();
        }
    }
}

} // verus!
