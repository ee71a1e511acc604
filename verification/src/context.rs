//! The scope context: the state of scope-type inference during one
//! validation.

use vstd::prelude::*;
use vstd::string::StringExecFns;
use crate::report::{diag, DiagnosticView, ErrorKey, Severity, Sink};
use crate::scopes::{lemma_intersection_within, Scopes};
use crate::token::{str_eq, Loc, Token};

verus! {

/// What `open_scope` and `open_builder` save, and `close` restores.
#[derive(Clone, Copy, Debug, PartialEq, Eq, Structural)]
pub struct ScopeFrame {
    /// The active set at the time of opening.
    pub this: Scopes,
    /// How many names were bound at the time of opening.
    pub names_len: usize,
    /// Whether the scope that was left was itself under construction.
    pub builder: bool,
}

/// A name that a script gave to a scope or to a value.
#[derive(Debug)]
pub struct NameBinding {
    pub name: String,
    pub scopes: Scopes,
    pub loc: Loc,
}

/// The mathematical content of a [`NameBinding`].
pub struct BindingView {
    pub name: Seq<char>,
    pub scopes: Scopes,
    pub loc: Loc,
}

impl View for NameBinding {
    type V = BindingView;

    open spec fn view(&self) -> BindingView {
        BindingView { name: self.name@, scopes: self.scopes, loc: self.loc }
    }
}

/// The mathematical content of a [`ScopeContext`].
pub struct ContextView {
    /// The scope types that the expression at hand can operate on.
    pub this: Scopes,
    /// The scope types of the outermost scope.
    pub root: Scopes,
    /// The saved scopes, outermost first.
    pub frames: Seq<ScopeFrame>,
    /// The bound names, oldest first. The latest binding of a name counts.
    pub names: Seq<BindingView>,
    /// Whether the active scope is under speculative construction.
    pub builder: bool,
    /// Whether a scope mismatch is a warning (strict) or only advice.
    pub strict: bool,
}

/// The latest of the first `n` bindings that binds `name`.
pub open spec fn lookup_name(names: Seq<BindingView>, name: Seq<char>, n: int) -> Option<Scopes>
    decreases n,
{
    if n <= 0 {
        None
    } else if names[n - 1].name == name {
        Some(names[n - 1].scopes)
    } else {
        lookup_name(names, name, n - 1)
    }
}

/// The message of a scope mismatch at a token.
pub open spec fn mismatch_msg(text: Seq<char>) -> Seq<char> {
    "`"@ + text + "` does not fit the scope types that are possible here"@
}

/// The message of an incompatible reference at a token.
pub open spec fn incompatible_msg(text: Seq<char>) -> Seq<char> {
    "`"@ + text + "` expects scope types that are not possible here"@
}

impl ContextView {
    /// The severity of a scope mismatch in this context.
    pub open spec fn mismatch_severity(self) -> Severity {
        if self.strict {
            Severity::Warning
        } else {
            Severity::Advice
        }
    }

    /// The context after `expect`: narrowed to the intersection where that
    /// is not empty, else unchanged.
    pub open spec fn expect(self, scopes: Scopes) -> ContextView {
        if self.this.intersects(scopes) {
            ContextView { this: self.this.intersection(scopes), ..self }
        } else {
            self
        }
    }

    /// What `expect` reports: one mismatch where the intersection is empty.
    pub open spec fn expect_diags(self, scopes: Scopes, text: Seq<char>, loc: Loc) -> Seq<DiagnosticView> {
        if self.this.intersects(scopes) {
            Seq::empty()
        } else {
            seq![diag(self.mismatch_severity(), ErrorKey::Scopes, loc, mismatch_msg(text))]
        }
    }

    /// A context without a known root scope, in which the active scope has
    /// the types `this`.
    pub open spec fn unrooted(this: Scopes) -> ContextView {
        ContextView {
            this: this,
            root: Scopes::all(),
            frames: Seq::empty(),
            names: Seq::empty(),
            builder: false,
            strict: true,
        }
    }

    /// The context after `open_scope`.
    pub open spec fn open(self, scopes: Scopes) -> ContextView {
        ContextView {
            this: scopes,
            frames: self.frames.push(
                ScopeFrame { this: self.this, names_len: self.names.len() as usize, builder: self.builder },
            ),
            builder: false,
            ..self
        }
    }

    /// The context after `open_builder`.
    pub open spec fn open_builder(self) -> ContextView {
        ContextView {
            frames: self.frames.push(
                ScopeFrame { this: self.this, names_len: self.names.len() as usize, builder: self.builder },
            ),
            builder: true,
            ..self
        }
    }

    /// Whether a scope was opened in the context and no name bound since:
    /// there is a saved scope, and the names are those of the moment at
    /// which it was saved.
    pub open spec fn opened(self) -> bool {
        self.frames.len() > 0 && self.frames.last().names_len == self.names.len()
    }

    /// Whether the context is at the level of nesting of `start`, with its
    /// saved scopes, its root and its strictness, and binds the names that
    /// `start` binds, in the same order, and after them any more: what
    /// holds of a context after a validation that started in `start`.
    pub open spec fn nested_as(self, start: ContextView) -> bool {
        &&& self.frames == start.frames
        &&& self.root == start.root
        &&& self.strict == start.strict
        &&& grows(self.names, start.names)
    }

    /// The context after `finalize_builder`.
    pub open spec fn finalize(self) -> ContextView {
        ContextView { builder: false, ..self }
    }

    /// The context after `replace`.
    pub open spec fn replace(self, scopes: Scopes) -> ContextView {
        ContextView { this: scopes, ..self }
    }

    /// The context after `close`: the innermost saved scope is active
    /// again, and the names bound since it was saved are forgotten.
    pub open spec fn close(self) -> ContextView {
        let frame = self.frames.last();
        ContextView {
            this: frame.this,
            frames: self.frames.drop_last(),
            names: if frame.names_len <= self.names.len() {
                self.names.take(frame.names_len as int)
            } else {
                self.names
            },
            builder: frame.builder,
            ..self
        }
    }

    /// The context after a name was bound.
    pub open spec fn bind(self, name: Seq<char>, scopes: Scopes, loc: Loc) -> ContextView {
        ContextView { names: self.names.push(BindingView { name, scopes, loc }), ..self }
    }

    /// The scope types that `name` is bound to.
    pub open spec fn lookup(self, name: Seq<char>) -> Option<Scopes> {
        lookup_name(self.names, name, self.names.len() as int)
    }

    /// The scope types of the scope from which the active one was reached.
    /// While a scope chain is under construction that is the scope before
    /// the one that the chain started from.
    pub open spec fn prev(self) -> Scopes {
        if self.builder {
            if self.frames.len() >= 2 {
                self.frames[self.frames.len() - 2].this
            } else {
                Scopes::all()
            }
        } else if self.frames.len() >= 1 {
            self.frames.last().this
        } else {
            Scopes::all()
        }
    }

    /// Whether a definition that inferred `other` can be used here.
    pub open spec fn compatible(self, other: ContextView) -> bool {
        self.this.intersects(other.this)
    }

    /// What `expect_compatibility` reports.
    pub open spec fn compatibility_diags(self, other: ContextView, text: Seq<char>, loc: Loc) -> Seq<
        DiagnosticView,
    > {
        if self.compatible(other) {
            Seq::empty()
        } else {
            seq![diag(self.mismatch_severity(), ErrorKey::Scopes, loc, incompatible_msg(text))]
        }
    }
}

/// The live state of scope-type inference for one validation call.
#[derive(Debug)]
pub struct ScopeContext {
    this: Scopes,
    root: Scopes,
    frames: Vec<ScopeFrame>,
    names: Vec<NameBinding>,
    builder: bool,
    strict: bool,
    source: Token,
}

impl View for ScopeContext {
    type V = ContextView;

    closed spec fn view(&self) -> ContextView {
        ContextView {
            this: self.this,
            root: self.root,
            frames: self.frames@,
            names: Seq::new(self.names@.len(), |i: int| self.names@[i]@),
            builder: self.builder,
            strict: self.strict,
        }
    }
}

impl Clone for ScopeContext {
    fn clone(&self) -> (r: Self)
        ensures
            r@ == self@,
            r.source() == self.source(),
    {
        let mut frames: Vec<ScopeFrame> = Vec::new();
        let mut i: usize = 0;
        while i < self.frames.len()
            invariant
                i <= self.frames@.len(),
                frames@ == self.frames@.take(i as int),
            decreases self.frames@.len() - i,
        {
            frames.push(self.frames[i]);
            assert(self.frames@.take(i + 1) =~= self.frames@.take(i as int).push(self.frames@[i as int]));
            i += 1;
        }
        assert(self.frames@.take(i as int) =~= self.frames@);
        let mut names: Vec<NameBinding> = Vec::new();
        let mut j: usize = 0;
        while j < self.names.len()
            invariant
                j <= self.names@.len(),
                names@.len() == j,
                forall|k: int| 0 <= k < j ==> (#[trigger] names@[k])@ == self.names@[k]@,
            decreases self.names@.len() - j,
        {
            let b = &self.names[j];
            names.push(NameBinding { name: b.name.clone(), scopes: b.scopes, loc: b.loc.clone() });
            j += 1;
        }
        let r = ScopeContext {
            this: self.this,
            root: self.root,
            frames,
            names,
            builder: self.builder,
            strict: self.strict,
            source: self.source.clone(),
        };
        assert(r@.names =~= self@.names);
        r
    }
}

impl ScopeContext {
    /// The token for whose sake the context was made.
    pub closed spec fn source(&self) -> Token {
        self.source
    }

    /// A strict context whose outermost scope has the types `root`.
    pub fn new(root: Scopes, token: Token) -> (r: ScopeContext)
        ensures
            r@ == (ContextView {
                this: root,
                root: root,
                frames: Seq::empty(),
                names: Seq::empty(),
                builder: false,
                strict: true,
            }),
            r.source() == token,
    {
        let r = ScopeContext {
            this: root,
            root,
            frames: Vec::new(),
            names: Vec::new(),
            builder: false,
            strict: true,
            source: token,
        };
        assert(r@.names =~= Seq::empty());
        r
    }

    /// A strict context for an expression of which only the active scope
    /// types are known: its outermost scope can have any type.
    pub fn new_unrooted(this: Scopes, token: Token) -> (r: ScopeContext)
        ensures
            r@ == (ContextView {
                this: this,
                root: Scopes::all(),
                frames: Seq::empty(),
                names: Seq::empty(),
                builder: false,
                strict: true,
            }),
            r.source() == token,
    {
        let r = ScopeContext {
            this,
            root: Scopes::all(),
            frames: Vec::new(),
            names: Vec::new(),
            builder: false,
            strict: true,
            source: token,
        };
        assert(r@.names =~= Seq::empty());
        r
    }

    /// Makes the context strict or lenient.
    pub fn set_strict_scopes(&mut self, strict: bool)
        ensures
            final(self)@ == (ContextView { strict: strict, ..old(self)@ }),
            final(self).source() == old(self).source(),
    {
        self.strict = strict;
    }

    /// The active scope types.
    pub fn scopes(&self) -> (r: Scopes)
        ensures
            r == self@.this,
    {
        self.this
    }

    /// The scope types of the outermost scope.
    pub fn root_scopes(&self) -> (r: Scopes)
        ensures
            r == self@.root,
    {
        self.root
    }

    /// Whether a scope mismatch is a warning here, and not only advice.
    pub fn is_strict(&self) -> (r: bool)
        ensures
            r == self@.strict,
    {
        self.strict
    }

    /// How many scopes are saved.
    pub fn depth(&self) -> (r: usize)
        ensures
            r == self@.frames.len(),
    {
        self.frames.len()
    }

    /// Narrows the active set to the scope types that are also in `scopes`.
    /// If there is none, the active set stays as it is and a mismatch is
    /// reported at `token`.
    pub fn expect(&mut self, scopes: Scopes, token: &Token, sink: &mut Sink)
        ensures
            final(self)@ == old(self)@.expect(scopes),
            final(self).source() == old(self).source(),
            final(sink)@ == old(sink)@ + old(self)@.expect_diags(scopes, token@, *token.loc()),
    {
        if self.this.intersects(scopes) {
            self.this = self.this.intersection(scopes);
            assert(sink@ + Seq::<DiagnosticView>::empty() =~= sink@);
        } else {
            let mut msg = String::from_str("`");
            msg.append(token.as_str());
            msg.append("` does not fit the scope types that are possible here");
            let severity = if self.strict { Severity::Warning } else { Severity::Advice };
            sink.report(severity, ErrorKey::Scopes, token.loc(), msg.as_str());
            assert(sink@ =~= old(sink)@ + old(self)@.expect_diags(scopes, token@, *token.loc()));
        }
    }

    /// Saves the active scope and makes `scopes` the active set.
    pub fn open_scope(&mut self, scopes: Scopes, token: &Token)
        ensures
            final(self)@ == old(self)@.open(scopes),
            final(self)@.close() == old(self)@,
            final(self)@.opened(),
            final(self).source() == old(self).source(),
    {
        proof {
            assert(self.names@.len() == self.names.len());
            law_open_close(self@, scopes);
        }
        self.frames.push(ScopeFrame { this: self.this, names_len: self.names.len(), builder: self.builder });
        self.this = scopes;
        self.builder = false;
    }

    /// Saves the active scope and starts the speculative construction of
    /// the scope that a chain of names leads to.
    pub fn open_builder(&mut self)
        ensures
            final(self)@ == old(self)@.open_builder(),
            final(self)@.close() == old(self)@,
            final(self)@.finalize().close() == old(self)@,
            final(self)@.opened(),
            final(self).source() == old(self).source(),
    {
        proof {
            assert(self.names@.len() == self.names.len());
            law_open_close(self@, self.this);
        }
        self.frames.push(ScopeFrame { this: self.this, names_len: self.names.len(), builder: self.builder });
        self.builder = true;
    }

    /// Commits the scope under construction: it is the active scope until
    /// `close`.
    pub fn finalize_builder(&mut self)
        ensures
            final(self)@ == old(self)@.finalize(),
            final(self).source() == old(self).source(),
    {
        self.builder = false;
    }

    /// Makes `scopes` the active set, as one step of a chain does.
    pub fn replace(&mut self, scopes: Scopes)
        ensures
            final(self)@ == old(self)@.replace(scopes),
            final(self).source() == old(self).source(),
    {
        self.this = scopes;
    }

    /// Leaves the active scope for the one that was saved last.
    pub fn close(&mut self)
        requires
            old(self)@.frames.len() > 0,
        ensures
            final(self)@ == old(self)@.close(),
            final(self).source() == old(self).source(),
    {
        let n = self.frames.len();
        let frame = self.frames[n - 1];
        self.frames.truncate(n - 1);
        self.this = frame.this;
        self.builder = frame.builder;
        self.names.truncate(frame.names_len);
        assert(self@.frames =~= old(self)@.frames.drop_last());
        assert(self@.names =~= old(self)@.close().names);
    }

    /// Binds `name` to `scopes`, at the place `loc`.
    pub fn define_name(&mut self, name: &str, scopes: Scopes, loc: &Loc)
        ensures
            final(self)@ == old(self)@.bind(name@, scopes, *loc),
            final(self).source() == old(self).source(),
    {
        self.names.push(NameBinding { name: String::from_str(name), scopes, loc: loc.clone() });
        assert(self@.names =~= old(self)@.names.push(BindingView { name: name@, scopes, loc: *loc }));
    }

    /// Binds the text of `name` to the scope types that are active now.
    pub fn save_current_scope(&mut self, name: &Token)
        ensures
            final(self)@ == old(self)@.bind(name@, old(self)@.this, *name.loc()),
            final(self).source() == old(self).source(),
    {
        let this = self.this;
        self.define_name(name.as_str(), this, name.loc());
    }

    /// The scope types that `name` is bound to, if it is bound.
    pub fn scopes_of_name(&self, name: &str) -> (r: Option<Scopes>)
        ensures
            r == self@.lookup(name@),
    {
        let mut n: usize = self.names.len();
        while n > 0
            invariant
                n <= self.names@.len(),
                self@.lookup(name@) == lookup_name(self@.names, name@, n as int),
            decreases n,
        {
            let b = &self.names[n - 1];
            assert(self@.names[n - 1] == b@);
            if str_eq(b.name.as_str(), name) {
                return Some(b.scopes);
            }
            n -= 1;
        }
        None
    }

    /// The scope types of the scope from which the active one was reached.
    pub fn prev_scopes(&self) -> (r: Scopes)
        ensures
            r == self@.prev(),
    {
        let n = self.frames.len();
        if self.builder {
            if n >= 2 {
                self.frames[n - 2].this
            } else {
                Scopes::all()
            }
        } else if n >= 1 {
            self.frames[n - 1].this
        } else {
            Scopes::all()
        }
    }

    /// Checks that a definition whose validation inferred `other` can be
    /// used in this context: the scope types that it requires must
    /// intersect the active set. A mismatch is reported at `token`; neither
    /// context changes.
    pub fn expect_compatibility(&self, other: &ScopeContext, token: &Token, sink: &mut Sink) -> (r: bool)
        ensures
            r == self@.compatible(other@),
            final(sink)@ == old(sink)@ + self@.compatibility_diags(other@, token@, *token.loc()),
    {
        if self.this.intersects(other.this) {
            assert(sink@ + Seq::<DiagnosticView>::empty() =~= sink@);
            true
        } else {
            let mut msg = String::from_str("`");
            msg.append(token.as_str());
            msg.append("` expects scope types that are not possible here");
            let severity = if self.strict { Severity::Warning } else { Severity::Advice };
            sink.report(severity, ErrorKey::Scopes, token.loc(), msg.as_str());
            assert(sink@ =~= old(sink)@ + self@.compatibility_diags(other@, token@, *token.loc()));
            false
        }
    }
}

/// Two expectations in a row, each of which fits the scope alone, but not
/// both together: the first narrows the active set to its intersection with
/// the first requirement and reports nothing; the second finds no
/// intersection with what is left, reports one mismatch and leaves the
/// context as the first left it.
pub proof fn law_expect_in_sequence(c: ContextView, first: Scopes, second: Scopes, text: Seq<char>, loc: Loc)
    requires
        c.this.intersects(first),
        c.this.intersects(second),
        !c.this.intersection(first).intersects(second),
    ensures
        c.expect(first).this == c.this.intersection(first),
        c.expect_diags(first, text, loc).len() == 0,
        c.expect(first).expect(second) == c.expect(first),
        c.expect(first).expect_diags(second, text, loc) == seq![
            diag(c.mismatch_severity(), ErrorKey::Scopes, loc, mismatch_msg(text)),
        ],
{
}

/// What `expect` does in each of its two cases: with a common scope type
/// the active set becomes the intersection and nothing is reported; with
/// none the context is unchanged and exactly one mismatch is reported.
pub proof fn law_expect(c: ContextView, scopes: Scopes, text: Seq<char>, loc: Loc)
    ensures
        c.this.intersects(scopes) ==> c.expect(scopes).this == c.this.intersection(scopes) && c.expect_diags(
            scopes,
            text,
            loc,
        ).len() == 0,
        !c.this.intersects(scopes) ==> c.expect(scopes) == c && c.expect_diags(scopes, text, loc).len() == 1
            && c.expect_diags(scopes, text, loc)[0].key == ErrorKey::Scopes,
{
}

/// Opening a scope and closing it again leaves the context as it was.
pub proof fn law_open_close(c: ContextView, scopes: Scopes)
    requires
        c.names.len() <= usize::MAX,
    ensures
        c.open(scopes).close() == c,
        c.open_builder().close() == c,
        c.open_builder().finalize().close() == c,
{
    assert(c.frames.push(
        ScopeFrame { this: c.this, names_len: c.names.len() as usize, builder: c.builder },
    ).drop_last() =~= c.frames);
    assert(c.names.take(c.names.len() as int) =~= c.names);
}


/// Whatever is validated inside a scope, closing the scope gives back the
/// context in which it was opened: the active set, the names and the
/// saved scopes of that moment.
pub proof fn law_close_gives_back(before: ContextView, opened: ContextView, inner: ContextView)
    requires
        opened.close() == before,
        opened.opened(),
        inner.nested_as(opened),
    ensures
        inner.close() == before,
{
    let n = opened.frames.last().names_len as int;
    assert(inner.names.take(n) =~= opened.names.take(n));
}

/// The check of a caller's context against a remembered one reports at most
/// one diagnostic, and reports it exactly when the two have no scope type
/// in common.
pub proof fn law_compatibility_reports_once(c: ContextView, other: ContextView, text: Seq<char>, loc: Loc)
    ensures
        c.compatibility_diags(other, text, loc).len() <= 1,
        c.compatibility_diags(other, text, loc).len() == 1 <==> !c.this.intersects(other.this),
{
}


/// Whether `new` binds, in the same order, the names that `old` binds, and
/// after them any more.
pub open spec fn grows(new: Seq<BindingView>, old: Seq<BindingView>) -> bool {
    &&& old.len() <= new.len()
    &&& forall|i: int|
        #![trigger new[i]]
        #![trigger old[i]]
        0 <= i < old.len() ==> new[i] == old[i]
}

/// An expectation never widens the active set, and changes nothing else.
pub proof fn law_expect_narrows(c: ContextView, scopes: Scopes)
    ensures
        c.expect(scopes).this.within(c.this),
        c.expect(scopes) == (ContextView { this: c.expect(scopes).this, ..c }),
{
    lemma_intersection_within(c.this, scopes);
}

} // verus!
