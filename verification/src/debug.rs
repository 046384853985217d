//! Which messages of the graphics API's debug channel are fatal.
use vstd::prelude::*;

verus! {

/// How grave the graphics API takes a message to be.
#[derive(Clone, Copy, Debug, PartialEq, Eq)]
pub enum Severity {
    High,
    Medium,
    Low,
    /// A notification, or a level that is not known.
    Other,
}

/// The name under which a fatal message reports its severity: errors of
/// high, medium or low severity are fatal, everything else is passed over.
pub open spec fn fatal_label(is_error: bool, severity: Severity) -> Option<Seq<char>> {
    if !is_error {
        None
    } else {
        match severity {
            Severity::High => Some("high"@),
            Severity::Medium => Some("medium"@),
            Severity::Low => Some("low"@),
            Severity::Other => None,
        }
    }
}

/// Decides on one debug message: `Some` with the name of its severity where
/// the message must end the program, `None` where it is passed over.
pub fn fatal_severity(is_error: bool, severity: Severity) -> (label: Option<&'static str>)
    ensures
        match fatal_label(is_error, severity) {
            Some(name) => label matches Some(text) && text@ == name,
            None => label is None,
        },
{
    if !is_error {
        return None;
    }
    match severity {
        Severity::High => Some("high"),
        Severity::Medium => Some("medium"),
        Severity::Low => Some("low"),
        Severity::Other => None,
    }
}

} // verus!
