//! Scope chains: dotted paths such as `liege.primary_title` that lead from
//! the active scope to another.

use vstd::prelude::*;
use vstd::string::StringExecFns;
use crate::catalog::{rule_named, Catalog};
use crate::context::{ContextView, ScopeContext};
use crate::everything::Everything;
use crate::helpers::extends;
use crate::report::{diag, DiagnosticView, ErrorKey, Severity, Sink};
use crate::scopes::Scopes;
use crate::token::{piece_loc, split_ranges, Loc, Token};

verus! {

/// Whether one part of a chain is known: `root`, `this`, `prev`, a saved
/// name written `scope:name`, or a step of the catalog.
pub open spec fn segment_known(seg: Seq<char>, catalog: &Catalog) -> bool {
    ||| seg == "root"@
    ||| seg == "this"@
    ||| seg == "prev"@
    ||| "scope:"@.is_prefix_of(seg)
    ||| rule_named(catalog.transitions@, seg) is Some
}

/// Whether every part of the chain is known.
pub open spec fn chain_known(text: Seq<char>, catalog: &Catalog) -> bool {
    forall|k: int|
        0 <= k < split_ranges(text, '.').len() ==> segment_known(
            text.subrange((#[trigger] split_ranges(text, '.')[k]).0, split_ranges(text, '.')[k].1),
            catalog,
        )
}

/// What a step of a chain keeps of the context: everything but the active
/// set.
pub open spec fn same_but_this(new: ContextView, old: ContextView) -> bool {
    new == (ContextView { this: new.this, ..old })
}

/// The name that a part of the form `scope:name` gives.
pub open spec fn saved_name(seg: Seq<char>) -> Seq<char> {
    seg.subrange("scope:"@.len() as int, seg.len() as int)
}

/// The context after one part of a chain. `root` leads to the outermost
/// scope, `this` stays, `prev` leads to the scope that the active one was
/// reached from, a saved name leads to what it was bound to, or to a scope
/// of any type if it was never bound, and a step of the catalog leads to
/// its target, from the active set narrowed to where the step starts. An
/// unknown part leads nowhere.
pub open spec fn segment_context(seg: Seq<char>, c: ContextView, catalog: &Catalog) -> ContextView {
    if seg == "root"@ {
        c.replace(c.root)
    } else if seg == "this"@ {
        c
    } else if seg == "prev"@ {
        c.replace(c.prev())
    } else if "scope:"@.is_prefix_of(seg) {
        match c.lookup(saved_name(seg)) {
            Some(scopes) => c.replace(scopes),
            None => c.replace(Scopes::all()),
        }
    } else {
        match rule_named(catalog.transitions@, seg) {
            Some(rule) => c.expect(rule.from).replace(rule.to),
            None => c,
        }
    }
}

/// The message about a saved name that was never saved.
pub open spec fn unsaved_msg(name: Seq<char>) -> Seq<char> {
    "scope name `"@ + name + "` was not saved before"@
}

/// The message about a part of a chain that nothing knows.
pub open spec fn unknown_token_msg(seg: Seq<char>) -> Seq<char> {
    "unknown token `"@ + seg + "`"@
}

/// What is reported of one part of a chain, which stands at `loc`: in a
/// strict context, unless `quiet`, a saved name that was never saved; a
/// step of the catalog from a scope that it does not start from; and an
/// unknown part.
pub open spec fn segment_diags(seg: Seq<char>, loc: Loc, c: ContextView, catalog: &Catalog, quiet: bool) -> Seq<
    DiagnosticView,
> {
    if seg == "root"@ || seg == "this"@ || seg == "prev"@ {
        Seq::empty()
    } else if "scope:"@.is_prefix_of(seg) {
        if c.lookup(saved_name(seg)) is None && c.strict && !quiet {
            seq![
                diag(
                    Severity::Warning,
                    ErrorKey::Scopes,
                    Loc { column: (loc.column + "scope:"@.len()) as u32, ..loc },
                    unsaved_msg(saved_name(seg)),
                ),
            ]
        } else {
            Seq::empty()
        }
    } else {
        match rule_named(catalog.transitions@, seg) {
            Some(rule) => c.expect_diags(rule.from, seg, loc),
            None => seq![diag(Severity::Error, ErrorKey::Validation, loc, unknown_token_msg(seg))],
        }
    }
}

/// Follows one part of a chain from the active scope. Returns whether the
/// part is known; an unknown one is reported.
pub fn validate_segment(part: &Token, data: &Everything, sc: &mut ScopeContext, quiet: bool, sink: &mut Sink) -> (r:
    bool)
    ensures
        r == segment_known(part@, &data.catalog),
        final(sc)@ == segment_context(part@, old(sc)@, &data.catalog),
        same_but_this(final(sc)@, old(sc)@),
        final(sc).source() == old(sc).source(),
        final(sink)@ == old(sink)@ + segment_diags(part@, *part.loc(), old(sc)@, &data.catalog, quiet),
        extends(final(sink)@, old(sink)@),
{
    proof {
        assert(sink@ + Seq::<DiagnosticView>::empty() =~= sink@);
    }
    if part.is("root") {
        let root = sc.root_scopes();
        sc.replace(root);
        return true;
    }
    if part.is("this") {
        return true;
    }
    if part.is("prev") {
        let prev = sc.prev_scopes();
        sc.replace(prev);
        return true;
    }
    if let Some(name) = part.strip_prefix("scope:") {
        match sc.scopes_of_name(name.as_str()) {
            Some(scopes) => {
                sc.replace(scopes);
            },
            None => {
                if sc.is_strict() && !quiet {
                    let mut msg = String::from_str("scope name `");
                    msg.append(name.as_str());
                    msg.append("` was not saved before");
                    sink.warn(name.loc(), ErrorKey::Scopes, msg.as_str());
                    assert(sink@ =~= old(sink)@ + segment_diags(
                        part@,
                        *part.loc(),
                        old(sc)@,
                        &data.catalog,
                        quiet,
                    ));
                }
                sc.replace(Scopes::all());
            },
        }
        return true;
    }
    match data.catalog.transition(part.as_str()) {
        Some((from, to)) => {
            sc.expect(from, part, sink);
            sc.replace(to);
            true
        },
        None => {
            let mut msg = String::from_str("unknown token `");
            msg.append(part.as_str());
            msg.append("`");
            sink.error(part.loc(), ErrorKey::Validation, msg.as_str());
            assert(sink@ =~= old(sink)@ + segment_diags(part@, *part.loc(), old(sc)@, &data.catalog, quiet));
            false
        },
    }
}

/// The parts of a chain: the text and the place of each.
pub open spec fn chain_parts(token: Token) -> Seq<(Seq<char>, Loc)> {
    Seq::new(
        split_ranges(token@, '.').len(),
        |k: int|
            (
                token@.subrange(split_ranges(token@, '.')[k].0, split_ranges(token@, '.')[k].1),
                piece_loc(*token.loc(), token@, split_ranges(token@, '.')[k].0),
            ),
    )
}

/// How many parts of a chain are followed: all of them, or those up to and
/// with the first unknown one, of the first `n`.
pub open spec fn parts_followed(parts: Seq<(Seq<char>, Loc)>, catalog: &Catalog, n: int) -> int
    decreases n,
{
    if n <= 0 {
        0
    } else if parts_followed(parts, catalog, n - 1) == n - 1 && (n == 1 || segment_known(
        parts[n - 2].0,
        catalog,
    )) {
        n
    } else {
        parts_followed(parts, catalog, n - 1)
    }
}

/// The context after the first `n` parts of a chain.
pub open spec fn chain_context(parts: Seq<(Seq<char>, Loc)>, c: ContextView, catalog: &Catalog, n: int) -> ContextView
    decreases n,
{
    if n <= 0 {
        c
    } else {
        segment_context(parts[n - 1].0, chain_context(parts, c, catalog, n - 1), catalog)
    }
}

/// What is reported of the first `n` parts of a chain.
pub open spec fn chain_diags(
    parts: Seq<(Seq<char>, Loc)>,
    c: ContextView,
    catalog: &Catalog,
    quiet: bool,
    n: int,
) -> Seq<DiagnosticView>
    decreases n,
{
    if n <= 0 {
        Seq::empty()
    } else {
        chain_diags(parts, c, catalog, quiet, n - 1) + segment_diags(
            parts[n - 1].0,
            parts[n - 1].1,
            chain_context(parts, c, catalog, n - 1),
            catalog,
            quiet,
        )
    }
}

/// The context that a chain leads to from the context `c`.
pub open spec fn chain_end(token: Token, c: ContextView, catalog: &Catalog) -> ContextView {
    chain_context(
        chain_parts(token),
        c,
        catalog,
        parts_followed(chain_parts(token), catalog, chain_parts(token).len() as int),
    )
}

/// What is reported of a chain that is followed from the context `c`.
pub open spec fn chain_findings(token: Token, c: ContextView, catalog: &Catalog, quiet: bool) -> Seq<DiagnosticView> {
    chain_diags(
        chain_parts(token),
        c,
        catalog,
        quiet,
        parts_followed(chain_parts(token), catalog, chain_parts(token).len() as int),
    )
}

/// While every part so far is known, every part so far is followed; after
/// an unknown part no more is.
proof fn lemma_parts_followed(parts: Seq<(Seq<char>, Loc)>, catalog: &Catalog, n: int, m: int)
    requires
        0 <= m <= n <= parts.len(),
        forall|k: int| 0 <= k < m - 1 ==> segment_known((#[trigger] parts[k]).0, catalog),
        m == n || (m > 0 && !segment_known(parts[m - 1].0, catalog)),
    ensures
        parts_followed(parts, catalog, n) == m,
    decreases n,
{
    if n > 0 {
        if m == n {
            lemma_parts_followed(parts, catalog, n - 1, n - 1);
            if n >= 2 {
                assert(segment_known(parts[n - 2].0, catalog));
            }
        } else {
            lemma_parts_followed(parts, catalog, n - 1, m);
        }
    }
}

/// Follows the chain that `token` writes, part by part, from the active
/// scope; the scope that it leads to is active afterwards. Returns whether
/// every part is known; the first unknown part is reported and ends the
/// walk. With `quiet`, a saved name that was never saved goes unreported.
pub fn validate_scope_chain(token: &Token, data: &Everything, sc: &mut ScopeContext, quiet: bool, sink: &mut Sink) -> (r:
    bool)
    ensures
        r == chain_known(token@, &data.catalog),
        final(sc)@ == chain_end(*token, old(sc)@, &data.catalog),
        same_but_this(final(sc)@, old(sc)@),
        final(sc).source() == old(sc).source(),
        final(sink)@ == old(sink)@ + chain_findings(*token, old(sc)@, &data.catalog, quiet),
        extends(final(sink)@, old(sink)@),
{
    let parts = token.split('.');
    let ghost ranges = split_ranges(token@, '.');
    let ghost ps = chain_parts(*token);
    let mut i: usize = 0;
    proof {
        assert(sink@ + Seq::<DiagnosticView>::empty() =~= sink@);
    }
    while i < parts.len()
        invariant
            i <= parts@.len(),
            ranges == split_ranges(token@, '.'),
            ps == chain_parts(*token),
            parts@.len() == ranges.len(),
            forall|k: int|
                0 <= k < parts@.len() ==> (#[trigger] parts@[k])@ == ps[k].0 && *parts@[k].loc() == ps[k].1,
            forall|k: int| 0 <= k < i ==> segment_known((#[trigger] ps[k]).0, &data.catalog),
            sc@ == chain_context(ps, old(sc)@, &data.catalog, i as int),
            same_but_this(sc@, old(sc)@),
            sc.source() == old(sc).source(),
            sink@ == old(sink)@ + chain_diags(ps, old(sc)@, &data.catalog, quiet, i as int),
        decreases parts@.len() - i,
    {
        let known = validate_segment(&parts[i], data, sc, quiet, sink);
        proof {
            assert(parts@[i as int]@ == ps[i as int].0);
            assert(sink@ =~= old(sink)@ + chain_diags(ps, old(sc)@, &data.catalog, quiet, i + 1));
        }
        if !known {
            proof {
                lemma_parts_followed(ps, &data.catalog, ps.len() as int, i + 1);
                assert(ps[i as int].0 == token@.subrange(ranges[i as int].0, ranges[i as int].1));
            }
            return false;
        }
        i += 1;
    }
    proof {
        lemma_parts_followed(ps, &data.catalog, ps.len() as int, ps.len() as int);
        assert forall|k: int| 0 <= k < ranges.len() implies segment_known(
            token@.subrange((#[trigger] ranges[k]).0, ranges[k].1),
            &data.catalog,
        ) by {
            assert(segment_known(ps[k].0, &data.catalog));
        }
    }
    true
}

} // verus!
