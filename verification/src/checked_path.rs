//! The tagged path that every open-style check hands back.
use vstd::prelude::*;

verus! {

/// A path that passed an access check, tagged with the form it was checked in.
///
/// A `Resolved` path is canonical and was checked, strictly, in that form. An
/// `Unresolved` path is only lexically normalized: it is not safe against
/// path confusion through symlinks.
#[derive(Debug)]
pub enum CheckedPath {
    Resolved(String),
    Unresolved(String),
}

/// The mathematical content of a [`CheckedPath`].
pub ghost enum CheckedForm {
    Resolved(Seq<char>),
    Unresolved(Seq<char>),
}

impl CheckedForm {
    /// The characters of the path, whichever form it is in.
    pub open spec fn path(self) -> Seq<char> {
        match self {
            CheckedForm::Resolved(p) => p,
            CheckedForm::Unresolved(p) => p,
        }
    }
}

impl View for CheckedPath {
    type V = CheckedForm;

    open spec fn view(&self) -> CheckedForm {
        match self {
            CheckedPath::Resolved(p) => CheckedForm::Resolved(p@),
            CheckedPath::Unresolved(p) => CheckedForm::Unresolved(p@),
        }
    }
}

impl CheckedPath {
    /// Whether the path went through canonicalization.
    pub fn is_resolved(&self) -> (b: bool)
        ensures
            b == (self@ is Resolved),
    {
        match self {
            CheckedPath::Resolved(_) => true,
            CheckedPath::Unresolved(_) => false,
        }
    }

    /// The path itself.
    pub fn as_str(&self) -> (p: &str)
        ensures
            p@ == self@.path(),
    {
        match self {
            CheckedPath::Resolved(p) => p.as_str(),
            CheckedPath::Unresolved(p) => p.as_str(),
        }
    }

    /// Gives up the tag and keeps the path.
    pub fn into_string(self) -> (p: String)
        ensures
            p@ == self@.path(),
    {
        match self {
            CheckedPath::Resolved(p) => p,
            CheckedPath::Unresolved(p) => p,
        }
    }
}

} // verus!
