//! The access mediator: the one place a filesystem request passes before it
//! touches the filesystem.
use vstd::prelude::*;
use crate::checked_path::{CheckedForm, CheckedPath};
use crate::error::{AccessKind, Denial, FsError, FsFailure, PermissionDenied, ResolutionError};
use crate::path_resolver::{
    is_malformed, needs_canonicalize, normalization, normalize, normalized_view, resolved_view,
    PathResolver,
};
use crate::permission_set::PermissionSet;

verus! {

/// The content of a check that hands back a path.
pub open spec fn path_result(r: Result<String, PermissionDenied>) -> Result<Seq<char>, Denial> {
    match r {
        Ok(p) => Ok(p@),
        Err(d) => Err(d@),
    }
}

/// The content of a check that hands back nothing.
pub open spec fn unit_result(r: Result<(), PermissionDenied>) -> Result<(), Denial> {
    match r {
        Ok(()) => Ok(()),
        Err(d) => Err(d@),
    }
}

/// The content of an open-style check.
pub open spec fn open_result(r: Result<CheckedPath, FsError>) -> Result<CheckedForm, FsFailure> {
    match r {
        Ok(p) => Ok(p@),
        Err(e) => Err(e@),
    }
}

/// The answer for a path-returning request: the granted path, or the denial
/// of `kind` about `path`.
pub open spec fn grant_or_denial(
    grant: Option<Seq<char>>,
    kind: AccessKind,
    path: Seq<char>,
    origin: Seq<char>,
) -> Result<Seq<char>, Denial> {
    match grant {
        Some(p) => Ok(p),
        None => Err(Denial { kind, subject: path, origin }),
    }
}

/// The answer for a request that hands back nothing: success where
/// `granted`, else the denial of `kind` about `subject`.
pub open spec fn pass_or_denial(
    granted: bool,
    kind: AccessKind,
    subject: Seq<char>,
    origin: Seq<char>,
) -> Result<(), Denial> {
    if granted {
        Ok(())
    } else {
        Err(Denial { kind, subject, origin })
    }
}

/// Where an open-style check stands once the path is normalized.
#[derive(Debug)]
pub enum OpenStep {
    /// The path must be made canonical; the check goes on with the result,
    /// in [`PermissionsContainer::check_open_resolved`].
    Resolve(String),
    /// The check is over.
    Done(Result<CheckedPath, FsError>),
}

/// The mathematical content of an [`OpenStep`].
pub ghost enum OpenStepView {
    Resolve(Seq<char>),
    Done(Result<CheckedForm, FsFailure>),
}

impl View for OpenStep {
    type V = OpenStepView;

    open spec fn view(&self) -> OpenStepView {
        match self {
            OpenStep::Resolve(p) => OpenStepView::Resolve(p@),
            OpenStep::Done(r) => OpenStepView::Done(open_result(*r)),
        }
    }
}

/// The mediator over a permission set that it only reads.
pub struct PermissionsContainer<P: PermissionSet>(pub P);

impl<P: PermissionSet> PermissionsContainer<P> {
    /// The answer to a read request.
    pub open spec fn read_outcome(&self, path: Seq<char>, origin: Seq<char>) -> Result<
        Seq<char>,
        Denial,
    > {
        grant_or_denial(self.0.read_grant(path), AccessKind::Read, path, origin)
    }

    /// The answer to a write request.
    pub open spec fn write_outcome(&self, path: Seq<char>, origin: Seq<char>) -> Result<
        Seq<char>,
        Denial,
    > {
        grant_or_denial(self.0.write_grant(path), AccessKind::Write, path, origin)
    }

    /// The answer to a partial-write request.
    pub open spec fn write_partial_outcome(&self, path: Seq<char>, origin: Seq<char>) -> Result<
        Seq<char>,
        Denial,
    > {
        grant_or_denial(self.0.write_partial_grant(path), AccessKind::WritePartial, path, origin)
    }

    /// The answer to a request to read everything.
    pub open spec fn read_all_outcome(&self, origin: Seq<char>) -> Result<(), Denial> {
        pass_or_denial(self.0.grants_read_all(), AccessKind::ReadAll, Seq::empty(), origin)
    }

    /// The answer to a request to write everything.
    pub open spec fn write_all_outcome(&self, origin: Seq<char>) -> Result<(), Denial> {
        pass_or_denial(self.0.grants_write_all(), AccessKind::WriteAll, Seq::empty(), origin)
    }

    /// The answer to a blind read request. The denial is about the display
    /// label: the path decides whether a denial comes, never what it says.
    pub open spec fn read_blind_outcome(
        &self,
        path: Seq<char>,
        display: Seq<char>,
        origin: Seq<char>,
    ) -> Result<(), Denial> {
        pass_or_denial(self.0.grants_read_blind(path), AccessKind::ReadBlind, display, origin)
    }

    /// The answer to a blind write request.
    pub open spec fn write_blind_outcome(
        &self,
        path: Seq<char>,
        display: Seq<char>,
        origin: Seq<char>,
    ) -> Result<(), Denial> {
        pass_or_denial(self.0.grants_write_blind(path), AccessKind::WriteBlind, display, origin)
    }

    /// The answer to an open request on a path in its final form: canonical
    /// and matched strictly where `strict`, normalized only where not.
    pub open spec fn open_checked(
        &self,
        strict: bool,
        read: bool,
        write: bool,
        path: Seq<char>,
        origin: Seq<char>,
    ) -> Result<CheckedForm, FsFailure> {
        match self.0.open_grant(strict, read, write, path) {
            Some(p) => Ok(
                if strict {
                    CheckedForm::Resolved(p)
                } else {
                    CheckedForm::Unresolved(p)
                },
            ),
            None => Err(
                FsFailure::NotCapable(Denial { kind: AccessKind::Open, subject: path, origin }),
            ),
        }
    }

    /// Where an open request stands once the resolver has normalized the
    /// path.
    pub open spec fn open_step(
        &self,
        read: bool,
        write: bool,
        normalized: Result<(bool, Seq<char>), ResolutionError>,
        origin: Seq<char>,
    ) -> OpenStepView {
        match normalized {
            Err(e) => OpenStepView::Done(Err(FsFailure::Resolution(e))),
            Ok((true, p)) => OpenStepView::Resolve(p),
            Ok((false, p)) => OpenStepView::Done(self.open_checked(false, read, write, p, origin)),
        }
    }

    /// The answer to an open request whose path had to be made canonical.
    pub open spec fn open_resolved(
        &self,
        read: bool,
        write: bool,
        resolved: Result<Seq<char>, ResolutionError>,
        origin: Seq<char>,
    ) -> Result<CheckedForm, FsFailure> {
        match resolved {
            Err(e) => Err(FsFailure::Resolution(e)),
            Ok(p) => self.open_checked(true, read, write, p, origin),
        }
    }

    /// The answer to an open request, from what the resolver said of the
    /// path. `resolved` counts only where the path must be made canonical.
    pub open spec fn open_outcome(
        &self,
        read: bool,
        write: bool,
        normalized: Result<(bool, Seq<char>), ResolutionError>,
        resolved: Result<Seq<char>, ResolutionError>,
        origin: Seq<char>,
    ) -> Result<CheckedForm, FsFailure> {
        match self.open_step(read, write, normalized, origin) {
            OpenStepView::Done(r) => r,
            OpenStepView::Resolve(_) => self.open_resolved(read, write, resolved, origin),
        }
    }

    /// Wraps a permission set.
    pub fn new(perms: P) -> (c: Self)
        ensures
            c.0 == perms,
    {
        PermissionsContainer(perms)
    }

    /// Checks a path in its final form for opening.
    fn open_in_form(&self, strict: bool, read: bool, write: bool, path: &str, api_name: &str) -> (r:
        Result<CheckedPath, FsError>)
        ensures
            open_result(r) == self.open_checked(strict, read, write, path@, api_name@),
    {
        match self.0.check_open(strict, read, write, path, api_name) {
            Some(p) => if strict {
                Ok(CheckedPath::Resolved(p))
            } else {
                Ok(CheckedPath::Unresolved(p))
            },
            None => Err(
                FsError::NotCapable(PermissionDenied::new(AccessKind::Open, path, api_name)),
            ),
        }
    }

    /// First step of an open request, on what the resolver said of the path.
    ///
    /// A resolver failure is handed on. A path that needs no canonicalization
    /// is checked as normalized, without strict matching, and comes back
    /// `Unresolved`. Otherwise nothing is checked yet: the step asks for the
    /// canonical form of the normalized path.
    pub fn check_open_normalized(
        &self,
        read: bool,
        write: bool,
        normalized: Result<(bool, String), ResolutionError>,
        api_name: &str,
    ) -> (step: OpenStep)
        ensures
            step@ == self.open_step(read, write, normalized_view(normalized), api_name@),
    {
        match normalized {
            Err(e) => OpenStep::Done(Err(FsError::Resolution(e))),
            Ok((needs_canonicalize, p)) => {
                if needs_canonicalize {
                    OpenStep::Resolve(p)
                } else {
                    OpenStep::Done(self.open_in_form(false, read, write, p.as_str(), api_name))
                }
            },
        }
    }

    /// Second step of an open request, on the canonical form the filesystem
    /// gave. A failure is handed on; a canonical path is checked strictly, in
    /// that form, and comes back `Resolved`.
    pub fn check_open_resolved(
        &self,
        read: bool,
        write: bool,
        resolved: Result<String, ResolutionError>,
        api_name: &str,
    ) -> (r: Result<CheckedPath, FsError>)
        ensures
            open_result(r) == self.open_resolved(read, write, resolved_view(resolved), api_name@),
    {
        match resolved {
            Err(e) => Err(FsError::Resolution(e)),
            Ok(p) => self.open_in_form(true, read, write, p.as_str(), api_name),
        }
    }

    /// Checks a request to open `path`.
    ///
    /// The path is normalized first. Where it needs no canonicalization it
    /// is checked as normalized and the answer is fixed by the path and the
    /// permission set. Where it does, `get_path` is asked for the canonical
    /// form, and the answer is the outcome for what `get_path` said, which
    /// is not known beforehand. A path that comes back is `Resolved` exactly
    /// where it had to be made canonical.
    pub fn check_open<R: PathResolver>(
        &self,
        read: bool,
        write: bool,
        path: &str,
        api_name: &str,
        get_path: &R,
    ) -> (r: Result<CheckedPath, FsError>)
        ensures
            exists|c: Result<Seq<char>, ResolutionError>|
                open_result(r) == #[trigger] self.open_outcome(
                    read,
                    write,
                    normalization(path@),
                    c,
                    api_name@,
                ),
            is_malformed(path@) || !needs_canonicalize(path@) ==> OpenStepView::Done(open_result(r))
                == self.open_step(read, write, normalization(path@), api_name@),
            r matches Ok(p) ==> (p@ is Resolved) == needs_canonicalize(path@),
    {
        let normalized = normalize(path);
        match self.check_open_normalized(read, write, normalized, api_name) {
            OpenStep::Done(r) => {
                proof {
                    let c: Result<Seq<char>, ResolutionError> = Err(ResolutionError::NotFound);
                    assert(open_result(r) == self.open_outcome(
                        read,
                        write,
                        normalization(path@),
                        c,
                        api_name@,
                    ));
                }
                r
            },
            OpenStep::Resolve(p) => {
                let resolved = get_path.resolved(p.as_str());
                let ghost c = resolved_view(resolved);
                let r = self.check_open_resolved(read, write, resolved, api_name);
                proof {
                    assert(open_result(r) == self.open_outcome(
                        read,
                        write,
                        normalization(path@),
                        c,
                        api_name@,
                    ));
                }
                r
            },
        }
    }

    /// Checks a request to read `path`. The blanket grant is asked first,
    /// then the grant for the path, which decides and gives the path to use.
    pub fn check_read(&self, path: &str, api_name: &str) -> (r: Result<String, PermissionDenied>)
        ensures
            path_result(r) == self.read_outcome(path@, api_name@),
    {
        let _blanket = self.0.check_read_all(api_name);
        match self.0.check_read(path, api_name) {
            Some(p) => Ok(p),
            None => Err(PermissionDenied::new(AccessKind::Read, path, api_name)),
        }
    }

    /// As [`Self::check_read`], on a path the caller hands over.
    pub fn check_read_path(&self, path: String, api_name: &str) -> (r: Result<
        String,
        PermissionDenied,
    >)
        ensures
            path_result(r) == self.read_outcome(path@, api_name@),
    {
        self.check_read(path.as_str(), api_name)
    }

    /// Checks the blanket read grant and nothing else.
    pub fn check_read_all(&self, api_name: &str) -> (r: Result<(), PermissionDenied>)
        ensures
            unit_result(r) == self.read_all_outcome(api_name@),
    {
        if self.0.check_read_all(api_name) {
            Ok(())
        } else {
            let d = PermissionDenied::new(AccessKind::ReadAll, "", api_name);
            proof {
                reveal_strlit("");
                assert(d@.subject =~= Seq::<char>::empty());
            }
            Err(d)
        }
    }

    /// Checks a request to read `path` for a caller that is shown `display`
    /// in its place. A denial names `display`, never `path`.
    pub fn check_read_blind(&self, path: &str, display: &str, api_name: &str) -> (r: Result<
        (),
        PermissionDenied,
    >)
        ensures
            unit_result(r) == self.read_blind_outcome(path@, display@, api_name@),
    {
        let _blanket = self.0.check_read_all(api_name);
        if self.0.check_read_blind(path, display, api_name) {
            Ok(())
        } else {
            Err(PermissionDenied::new(AccessKind::ReadBlind, display, api_name))
        }
    }

    /// Checks a request to write `path`. The blanket grant is asked first,
    /// then the grant for the path, which decides and gives the path to use.
    pub fn check_write(&self, path: &str, api_name: &str) -> (r: Result<String, PermissionDenied>)
        ensures
            path_result(r) == self.write_outcome(path@, api_name@),
    {
        let _blanket = self.0.check_write_all(api_name);
        match self.0.check_write(path, api_name) {
            Some(p) => Ok(p),
            None => Err(PermissionDenied::new(AccessKind::Write, path, api_name)),
        }
    }

    /// As [`Self::check_write`], on a path the caller hands over.
    pub fn check_write_path(&self, path: String, api_name: &str) -> (r: Result<
        String,
        PermissionDenied,
    >)
        ensures
            path_result(r) == self.write_outcome(path@, api_name@),
    {
        self.check_write(path.as_str(), api_name)
    }

    /// Checks a request to write `path` or something below it.
    pub fn check_write_partial(&self, path: &str, api_name: &str) -> (r: Result<
        String,
        PermissionDenied,
    >)
        ensures
            path_result(r) == self.write_partial_outcome(path@, api_name@),
    {
        let _blanket = self.0.check_write_all(api_name);
        match self.0.check_write_partial(path, api_name) {
            Some(p) => Ok(p),
            None => Err(PermissionDenied::new(AccessKind::WritePartial, path, api_name)),
        }
    }

    /// Checks the blanket write grant and nothing else.
    pub fn check_write_all(&self, api_name: &str) -> (r: Result<(), PermissionDenied>)
        ensures
            unit_result(r) == self.write_all_outcome(api_name@),
    {
        if self.0.check_write_all(api_name) {
            Ok(())
        } else {
            let d = PermissionDenied::new(AccessKind::WriteAll, "", api_name);
            proof {
                reveal_strlit("");
                assert(d@.subject =~= Seq::<char>::empty());
            }
            Err(d)
        }
    }

    /// Checks a request to write `path` for a caller that is shown `display`
    /// in its place. A denial names `display`, never `path`.
    pub fn check_write_blind(&self, path: &str, display: &str, api_name: &str) -> (r: Result<
        (),
        PermissionDenied,
    >)
        ensures
            unit_result(r) == self.write_blind_outcome(path@, display@, api_name@),
    {
        let _blanket = self.0.check_write_all(api_name);
        if self.0.check_write_blind(path, display, api_name) {
            Ok(())
        } else {
            Err(PermissionDenied::new(AccessKind::WriteBlind, display, api_name))
        }
    }
}

} // verus!
