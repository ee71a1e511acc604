//! Diagnostics and the sink that collects them.

use vstd::prelude::*;
use vstd::string::StringExecFns;
use crate::token::Loc;

verus! {

/// How serious a diagnostic is.
#[derive(Clone, Copy, Debug, PartialEq, Eq, Structural)]
pub enum Severity {
    Error,
    Warning,
    Info,
    Advice,
    Untidy,
}

/// What kind of problem a diagnostic reports.
#[derive(Clone, Copy, Debug, PartialEq, Eq, Structural)]
pub enum ErrorKey {
    /// A definition redefines an existing name.
    Duplicate,
    /// A field, shape or grammar mismatch.
    Validation,
    /// Legal structure with a suspicious meaning.
    Logic,
    /// An `else` that carries a `limit`.
    IfElse,
    /// A repeated sub-field overrides an earlier one.
    Conflict,
    /// A file could not be loaded.
    ReadError,
    /// A problem in the analyser's own configuration.
    Config,
    /// A scope type mismatch.
    Scopes,
    /// A required field is absent.
    FieldMissing,
    /// A field that no rule of the grammar claimed.
    UnknownField,
    /// A reference to a definition that does not exist.
    MissingItem,
    /// A field that has no effect where it stands.
    Unneeded,
}

/// One finding, attributed to a source location.
#[derive(Debug)]
pub struct Diagnostic {
    pub severity: Severity,
    pub key: ErrorKey,
    pub loc: Loc,
    pub msg: String,
    pub info: Option<String>,
}

/// The mathematical content of a [`Diagnostic`].
pub struct DiagnosticView {
    pub severity: Severity,
    pub key: ErrorKey,
    pub loc: Loc,
    pub msg: Seq<char>,
    pub info: Option<Seq<char>>,
}

impl View for Diagnostic {
    type V = DiagnosticView;

    open spec fn view(&self) -> DiagnosticView {
        DiagnosticView {
            severity: self.severity,
            key: self.key,
            loc: self.loc,
            msg: self.msg@,
            info: match self.info {
                Some(s) => Some(s@),
                None => None,
            },
        }
    }
}

/// A diagnostic without an explanatory note.
pub open spec fn diag(severity: Severity, key: ErrorKey, loc: Loc, msg: Seq<char>) -> DiagnosticView {
    DiagnosticView { severity, key, loc, msg, info: None }
}

/// A diagnostic with an explanatory note.
pub open spec fn diag_info(
    severity: Severity,
    key: ErrorKey,
    loc: Loc,
    msg: Seq<char>,
    info: Seq<char>,
) -> DiagnosticView {
    DiagnosticView { severity, key, loc, msg, info: Some(info) }
}

/// How many diagnostics of `s` have severity [`Severity::Error`].
pub open spec fn count_errors(s: Seq<DiagnosticView>) -> nat
    decreases s.len(),
{
    if s.len() == 0 {
        0
    } else {
        count_errors(s.drop_last()) + if s.last().severity == Severity::Error { 1nat } else { 0nat }
    }
}

/// An append-only list of diagnostics. Validation never stops at a finding:
/// every check adds to the sink and returns.
pub struct Sink {
    entries: Vec<Diagnostic>,
}

impl View for Sink {
    type V = Seq<DiagnosticView>;

    closed spec fn view(&self) -> Seq<DiagnosticView> {
        Seq::new(self.entries@.len(), |i: int| self.entries@[i]@)
    }
}

impl Sink {
    /// A sink that holds nothing.
    pub fn new() -> (r: Sink)
        ensures
            r@ == Seq::<DiagnosticView>::empty(),
    {
        let r = Sink { entries: Vec::new() };
        assert(r@ =~= Seq::<DiagnosticView>::empty());
        r
    }

    /// Appends one diagnostic.
    pub fn push(&mut self, d: Diagnostic)
        ensures
            final(self)@ == old(self)@.push(d@),
    {
        self.entries.push(d);
        assert(self@ =~= old(self)@.push(d@));
    }

    /// Appends a diagnostic built from its parts.
    pub fn report(&mut self, severity: Severity, key: ErrorKey, loc: &Loc, msg: &str)
        ensures
            final(self)@ == old(self)@.push(diag(severity, key, *loc, msg@)),
    {
        let d = Diagnostic { severity, key, loc: loc.clone(), msg: String::from_str(msg), info: None };
        self.push(d);
    }

    /// Appends a diagnostic that carries an explanatory note.
    pub fn report_info(&mut self, severity: Severity, key: ErrorKey, loc: &Loc, msg: &str, info: &str)
        ensures
            final(self)@ == old(self)@.push(diag_info(severity, key, *loc, msg@, info@)),
    {
        let d = Diagnostic {
            severity,
            key,
            loc: loc.clone(),
            msg: String::from_str(msg),
            info: Some(String::from_str(info)),
        };
        self.push(d);
    }

    /// Appends an error.
    pub fn error(&mut self, loc: &Loc, key: ErrorKey, msg: &str)
        ensures
            final(self)@ == old(self)@.push(diag(Severity::Error, key, *loc, msg@)),
    {
        self.report(Severity::Error, key, loc, msg)
    }

    /// Appends a warning.
    pub fn warn(&mut self, loc: &Loc, key: ErrorKey, msg: &str)
        ensures
            final(self)@ == old(self)@.push(diag(Severity::Warning, key, *loc, msg@)),
    {
        self.report(Severity::Warning, key, loc, msg)
    }

    /// Appends a note that belongs to the diagnostic before it.
    pub fn info(&mut self, loc: &Loc, key: ErrorKey, msg: &str)
        ensures
            final(self)@ == old(self)@.push(diag(Severity::Info, key, *loc, msg@)),
    {
        self.report(Severity::Info, key, loc, msg)
    }

    /// Appends advice.
    pub fn advice(&mut self, loc: &Loc, key: ErrorKey, msg: &str)
        ensures
            final(self)@ == old(self)@.push(diag(Severity::Advice, key, *loc, msg@)),
    {
        self.report(Severity::Advice, key, loc, msg)
    }

    /// Appends a remark on something that works but is untidy.
    pub fn untidy(&mut self, loc: &Loc, key: ErrorKey, msg: &str)
        ensures
            final(self)@ == old(self)@.push(diag(Severity::Untidy, key, *loc, msg@)),
    {
        self.report(Severity::Untidy, key, loc, msg)
    }

    /// Appends an error with an explanatory note.
    pub fn error_info(&mut self, loc: &Loc, key: ErrorKey, msg: &str, info: &str)
        ensures
            final(self)@ == old(self)@.push(diag_info(Severity::Error, key, *loc, msg@, info@)),
    {
        self.report_info(Severity::Error, key, loc, msg, info)
    }

    /// Appends advice with an explanatory note.
    pub fn advice_info(&mut self, loc: &Loc, key: ErrorKey, msg: &str, info: &str)
        ensures
            final(self)@ == old(self)@.push(diag_info(Severity::Advice, key, *loc, msg@, info@)),
    {
        self.report_info(Severity::Advice, key, loc, msg, info)
    }

    /// The number of diagnostics collected so far.
    pub fn len(&self) -> (n: usize)
        ensures
            n == self@.len(),
    {
        self.entries.len()
    }

    /// The diagnostic at position `i`, in the order of emission.
    pub fn get(&self, i: usize) -> (d: &Diagnostic)
        requires
            i < self@.len(),
        ensures
            d@ == self@[i as int],
    {
        &self.entries[i]
    }

    /// Whether a run that produced these diagnostics counts as failed: it
    /// does when at least one of them is an error.
    pub fn has_errors(&self) -> (r: bool)
        ensures
            r == (count_errors(self@) > 0),
    {
        let mut i: usize = 0;
        let mut found = false;
        while i < self.entries.len()
            invariant
                i <= self.entries.len(),
                found == (count_errors(self@.take(i as int)) > 0),
            decreases self.entries.len() - i,
        {
            proof {
                assert(self@.take(i + 1).drop_last() =~= self@.take(i as int));
            }
            match self.entries[i].severity {
                Severity::Error => {
                    found = true;
                },
                _ => {},
            }
            i += 1;
        }
        proof {
            assert(self@.take(i as int) =~= self@);
        }
        found
    }
}

} // verus!
