//! Tags that mark a diagnostic as unnecessary code, deprecated code, or both.

use vstd::prelude::*;

verus! {

/// How an editor should render the code a diagnostic points at.
#[derive(Clone, Copy, Debug, PartialEq, Eq, Structural, Hash)]
pub enum DiagnosticTag {
    /// The code is unused or unreachable.
    Unnecessary,
    /// The code uses something that is deprecated.
    Deprecated,
    /// The code is both unnecessary and deprecated.
    Both,
}

impl DiagnosticTag {
    /// Whether the tag marks unnecessary code.
    pub open spec fn marks_unnecessary(self) -> bool {
        self == DiagnosticTag::Unnecessary || self == DiagnosticTag::Both
    }

    /// Whether the tag marks deprecated code.
    pub open spec fn marks_deprecated(self) -> bool {
        self == DiagnosticTag::Deprecated || self == DiagnosticTag::Both
    }

    /// True for `Unnecessary` and `Both`.
    pub fn is_unnecessary(&self) -> (b: bool)
        ensures
            b == self.marks_unnecessary(),
    {
        match self {
            DiagnosticTag::Unnecessary => true,
            DiagnosticTag::Deprecated => false,
            DiagnosticTag::Both => true,
        }
    }

    /// True for `Deprecated` and `Both`.
    pub fn is_deprecated(&self) -> (b: bool)
        ensures
            b == self.marks_deprecated(),
    {
        match self {
            DiagnosticTag::Unnecessary => false,
            DiagnosticTag::Deprecated => true,
            DiagnosticTag::Both => true,
        }
    }
}

} // verus!
