//! Small things that several modules share.

use vstd::prelude::*;
use vstd::string::StringExecFns;
use crate::report::{diag, DiagnosticView, ErrorKey, Severity, Sink};
use crate::token::{Loc, Token};

verus! {

/// Whether a numeric expression has a value yet.
#[derive(Clone, Copy, Debug, PartialEq, Eq, Structural)]
pub enum TriBool {
    /// A value has been set.
    True,
    /// No value has been set.
    False,
    /// A value may have been set, by a branch that may not have run.
    Maybe,
}

/// What is reported when a definition takes the name of an earlier one: an
/// error at the new definition and a note at the other.
pub open spec fn dup_diags(key: Loc, other: Loc, id: Seq<char>) -> Seq<DiagnosticView> {
    seq![
        diag(Severity::Error, ErrorKey::Duplicate, key, id + " is redefined by another "@ + id),
        diag(Severity::Info, ErrorKey::Duplicate, other, "the other "@ + id + " is here"@),
    ]
}

/// Reports that the definition at `key` takes the name of the one at
/// `other`. `id` says what kind of definition it is.
pub fn dup_error(key: &Token, other: &Token, id: &str, sink: &mut Sink)
    ensures
        final(sink)@ == old(sink)@ + dup_diags(*key.loc(), *other.loc(), id@),
{
    let mut msg = String::from_str(id);
    msg.append(" is redefined by another ");
    msg.append(id);
    sink.error(key.loc(), ErrorKey::Duplicate, msg.as_str());
    let mut msg2 = String::from_str("the other ");
    msg2.append(id);
    msg2.append(" is here");
    sink.info(other.loc(), ErrorKey::Duplicate, msg2.as_str());
    assert(sink@ =~= old(sink)@ + dup_diags(*key.loc(), *other.loc(), id@));
}

/// Whether `new` is `old` with diagnostics added at its end.
pub open spec fn extends(new: Seq<DiagnosticView>, old: Seq<DiagnosticView>) -> bool {
    &&& old.len() <= new.len()
    &&& forall|i: int|
        #![trigger new[i]]
        #![trigger old[i]]
        0 <= i < old.len() ==> new[i] == old[i]
}

/// What a sink holds that an earlier state of it did not.
pub open spec fn added(new: Seq<DiagnosticView>, old: Seq<DiagnosticView>) -> Seq<DiagnosticView> {
    new.skip(old.len() as int)
}

/// What was added to a sink stays added when more is added.
pub proof fn lemma_added_stays(
    new: Seq<DiagnosticView>,
    mid: Seq<DiagnosticView>,
    old: Seq<DiagnosticView>,
    d: DiagnosticView,
)
    requires
        extends(mid, old),
        extends(new, mid),
        added(mid, old).contains(d),
    ensures
        added(new, old).contains(d),
{
    let k = choose|k: int| 0 <= k < added(mid, old).len() && added(mid, old)[k] == d;
    assert(mid[old.len() + k] == d);
    assert(new[old.len() + k] == d);
    assert(added(new, old)[k] == d);
}

/// What is added first is the first of what was added, whatever follows.
pub proof fn lemma_added_first(new: Seq<DiagnosticView>, old: Seq<DiagnosticView>, d: DiagnosticView)
    requires
        extends(new, old.push(d)),
    ensures
        extends(new, old),
        added(new, old).len() > 0,
        added(new, old)[0] == d,
        added(new, old).contains(d),
{
    assert(old.push(d)[old.len() as int] == d);
    assert(new[old.len() as int] == d);
    assert(added(new, old)[0] == d);
}

} // verus!
