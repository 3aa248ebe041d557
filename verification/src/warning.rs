//! The diagnostic model: a severity, an optional source position, and a
//! composed message. A warning is created once by a rule set and is immutable
//! thereafter; ranking and display are defined over its view.
use vstd::prelude::*;
use vstd::string::StringExecFns;

use crate::entities::{opt_pos_view, PosV, SourcePosition};

verus! {

/// How grave a finding is: `Info` ranks below `Warning`, which ranks below
/// `Error`.
#[derive(Clone, Copy, PartialEq, Eq, Structural, Debug)]
pub enum Severity {
    Info,
    Warning,
    Error,
}

/// The rank a severity sorts by: `Info` lowest, `Error` highest.
pub open spec fn severity_rank(s: Severity) -> int {
    match s {
        Severity::Info => 1,
        Severity::Warning => 2,
        Severity::Error => 3,
    }
}

/// View of a warning: position, full message text, severity.
pub struct WarningV {
    pub pos: Option<PosV>,
    pub message: Seq<char>,
    pub severity: Severity,
}

/// The view a freshly constructed warning has: the stored message is always
/// the identifier, one space, and the rule's message fragment.
pub open spec fn make_warning(
    pos: Option<PosV>,
    id: Seq<char>,
    msg: Seq<char>,
    severity: Severity,
) -> WarningV {
    WarningV { pos, message: id + " "@ + msg, severity }
}

/// One finding: a severity, an optional source position, and a message of the
/// form `"<identifier> <rule text>"`.
pub struct Warning {
    pub pos: Option<SourcePosition>,
    pub message: String,
    pub severity: Severity,
}

impl View for Warning {
    type V = WarningV;

    open spec fn view(&self) -> WarningV {
        WarningV {
            pos: match self.pos {
                Some(p) => Some(p@),
                None => None,
            },
            message: self.message@,
            severity: self.severity,
        }
    }
}

/// The display label of a severity.
pub open spec fn severity_label(s: Severity) -> Seq<char> {
    match s {
        Severity::Info => "INFO"@,
        Severity::Warning => "WARNING"@,
        Severity::Error => "ERROR"@,
    }
}

/// How a warning displays: `"<SEVERITY> <filename>:<line>: <message>"` with a
/// position, `"<SEVERITY>: <message>"` without one.
pub open spec fn rendered(w: WarningV) -> Seq<char> {
    match w.pos {
        Some(p) => severity_label(w.severity) + " "@ + p.filename + ":"@ + p.line + ": "@
            + w.message,
        None => severity_label(w.severity) + ": "@ + w.message,
    }
}

impl Warning {
    fn new_inner(pos: Option<&SourcePosition>, id: &str, msg: &str, severity: Severity) -> (w:
        Warning)
        ensures
            w@ == make_warning(opt_pos_view(pos), id@, msg@, severity),
    {
        let owned_pos: Option<SourcePosition> = match pos {
            Some(p) => Some(
                SourcePosition { filename: p.filename.clone(), line: p.line.clone() },
            ),
            None => None,
        };
        let mut message = id.to_owned();
        message.append(" ");
        message.append(msg);
        Warning { pos: owned_pos, message, severity }
    }

    /// A `Warning`-severity finding.
    pub fn new(pos: Option<&SourcePosition>, id: &str, msg: &str) -> (w: Warning)
        ensures
            w@ == make_warning(opt_pos_view(pos), id@, msg@, Severity::Warning),
    {
        Self::new_inner(pos, id, msg, Severity::Warning)
    }

    /// An `Info`-severity finding.
    pub fn info(pos: Option<&SourcePosition>, id: &str, msg: &str) -> (w: Warning)
        ensures
            w@ == make_warning(opt_pos_view(pos), id@, msg@, Severity::Info),
    {
        Self::new_inner(pos, id, msg, Severity::Info)
    }

    /// An `Error`-severity finding.
    pub fn error(pos: Option<&SourcePosition>, id: &str, msg: &str) -> (w: Warning)
        ensures
            w@ == make_warning(opt_pos_view(pos), id@, msg@, Severity::Error),
    {
        Self::new_inner(pos, id, msg, Severity::Error)
    }

    /// The one-line display form of this warning.
    pub fn render(&self) -> (r: String)
        ensures
            r@ == rendered(self@),
    {
        let label: &str = match self.severity {
            Severity::Info => "INFO",
            Severity::Warning => "WARNING",
            Severity::Error => "ERROR",
        };
        let mut out = label.to_owned();
        match &self.pos {
            Some(p) => {
                out.append(" ");
                out.append(p.filename.as_str());
                out.append(":");
                out.append(p.line.as_str());
                out.append(": ");
            },
            None => {
                out.append(": ");
            },
        }
        out.append(self.message.as_str());
        out
    }
}

} // verus!
