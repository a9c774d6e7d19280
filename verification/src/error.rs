//! The two ways a check can fail: the path could not be resolved, or the
//! permission set holds no grant for the request.
use vstd::prelude::*;
use vstd::string::StringExecFns;

verus! {

/// The operation a caller asked the mediator to authorize.
#[derive(Clone, Copy, Debug, PartialEq, Eq, Structural)]
pub enum AccessKind {
    Open,
    Read,
    ReadAll,
    ReadBlind,
    Write,
    WritePartial,
    WriteAll,
    WriteBlind,
}

/// Why a path could not be brought into the form a check needs.
#[derive(Clone, Copy, Debug, PartialEq, Eq, Structural)]
pub enum ResolutionError {
    /// The path is structurally invalid (empty, or holds a NUL).
    Malformed,
    /// The path does not exist, or a symlink chain is broken.
    NotFound,
    /// The filesystem refused or failed the canonicalization.
    Unavailable,
}

/// A denial: the permission set holds no grant for the request.
#[derive(Debug)]
pub struct PermissionDenied {
    /// The operation that was denied.
    pub kind: AccessKind,
    /// What the request was about, as it may be shown: the checked path, the
    /// display label of a blind check, or nothing for a blanket check.
    pub subject: String,
    /// The label of the API the request came from.
    pub origin: String,
}

/// The mathematical content of a [`PermissionDenied`].
pub ghost struct Denial {
    pub kind: AccessKind,
    pub subject: Seq<char>,
    pub origin: Seq<char>,
}

impl View for PermissionDenied {
    type V = Denial;

    open spec fn view(&self) -> Denial {
        Denial { kind: self.kind, subject: self.subject@, origin: self.origin@ }
    }
}

/// The text a denial is reported with, as a function of its content.
pub open spec fn denial_text(d: Denial) -> Seq<char> {
    "Access Denied: "@ + d.subject + " requested by "@ + d.origin
}

impl PermissionDenied {
    /// Builds the denial of `kind` about `subject`, requested from `origin`.
    pub fn new(kind: AccessKind, subject: &str, origin: &str) -> (d: PermissionDenied)
        ensures
            d@ == (Denial { kind, subject: subject@, origin: origin@ }),
    {
        PermissionDenied {
            kind,
            subject: String::from_str(subject),
            origin: String::from_str(origin),
        }
    }

    /// The message to report. It is made of the subject and the origin label
    /// and of nothing else.
    pub fn message(&self) -> (text: String)
        ensures
            text@ == denial_text(self@),
    {
        let mut text = String::from_str("Access Denied: ");
        text.append(self.subject.as_str());
        text.append(" requested by ");
        text.append(self.origin.as_str());
        text
    }
}

/// The failure of an open-style check.
#[derive(Debug)]
pub enum FsError {
    /// The path resolver failed; its error is handed on unchanged.
    Resolution(ResolutionError),
    /// No grant matched the path that was checked.
    NotCapable(PermissionDenied),
}

/// The mathematical content of an [`FsError`].
pub ghost enum FsFailure {
    Resolution(ResolutionError),
    NotCapable(Denial),
}

impl View for FsError {
    type V = FsFailure;

    open spec fn view(&self) -> FsFailure {
        match self {
            FsError::Resolution(e) => FsFailure::Resolution(*e),
            FsError::NotCapable(d) => FsFailure::NotCapable(d@),
        }
    }
}

impl FsError {
    /// The message to report.
    pub fn message(&self) -> (text: String)
        ensures
            text@ == match self@ {
                FsFailure::Resolution(ResolutionError::Malformed) => "malformed path"@,
                FsFailure::Resolution(ResolutionError::NotFound) => "path not found"@,
                FsFailure::Resolution(ResolutionError::Unavailable) => "path cannot be resolved"@,
                FsFailure::NotCapable(d) => denial_text(d),
            },
    {
        match self {
            FsError::Resolution(ResolutionError::Malformed) => String::from_str("malformed path"),
            FsError::Resolution(ResolutionError::NotFound) => String::from_str("path not found"),
            FsError::Resolution(ResolutionError::Unavailable) => String::from_str(
                "path cannot be resolved",
            ),
            FsError::NotCapable(d) => d.message(),
        }
    }
}

} // verus!
