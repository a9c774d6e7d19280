//! What holds of the mediator over every permission set and every request.
use vstd::prelude::*;
use crate::checked_path::{CheckedForm, CheckedPath};
use crate::error::{
    denial_text, AccessKind, Denial, FsError, FsFailure, PermissionDenied, ResolutionError,
};
use crate::grant_table::GrantTable;
use crate::mediator::{open_result, path_result, unit_result, PermissionsContainer};
use crate::path_resolver::{is_malformed, needs_canonicalize, normalization, squeeze};
use crate::permission_set::{coherent, PermissionSet};

verus! {

/// An open request that succeeds hands back a `Resolved` path where the
/// resolver said the path must be made canonical, and an `Unresolved` path
/// where it said it need not.
pub proof fn lemma_open_form_follows_resolver<P: PermissionSet>(
    c: &PermissionsContainer<P>,
    read: bool,
    write: bool,
    needs_canonicalize: bool,
    normalized: Seq<char>,
    resolved: Result<Seq<char>, ResolutionError>,
    origin: Seq<char>,
)
    ensures
        match c.open_outcome(read, write, Ok((needs_canonicalize, normalized)), resolved, origin) {
            Ok(p) => (p is Resolved) == needs_canonicalize,
            Err(_) => true,
        },
{
}

/// An open request on a well-formed path that succeeds hands back a
/// `Resolved` path exactly where the path is relative or climbs with `..`.
pub proof fn lemma_open_form_follows_path<P: PermissionSet>(
    c: &PermissionsContainer<P>,
    read: bool,
    write: bool,
    path: Seq<char>,
    resolved: Result<Seq<char>, ResolutionError>,
    origin: Seq<char>,
)
    ensures
        match c.open_outcome(read, write, normalization(path), resolved, origin) {
            Ok(p) => !is_malformed(path) && (p is Resolved) == needs_canonicalize(path),
            Err(e) => is_malformed(path) ==> e == FsFailure::Resolution(ResolutionError::Malformed),
        },
{
}

/// A path that comes back `Resolved` was granted strictly in its canonical
/// form; one that comes back `Unresolved` was granted in its normalized
/// form, not strictly.
pub proof fn lemma_open_checks_the_form_it_returns<P: PermissionSet>(
    c: &PermissionsContainer<P>,
    read: bool,
    write: bool,
    needs_canonicalize: bool,
    normalized: Seq<char>,
    resolved: Result<Seq<char>, ResolutionError>,
    origin: Seq<char>,
)
    ensures
        match c.open_outcome(read, write, Ok((needs_canonicalize, normalized)), resolved, origin) {
            Ok(CheckedForm::Resolved(p)) => resolved is Ok && c.0.open_grant(
                true,
                read,
                write,
                resolved->Ok_0,
            ) == Some(p),
            Ok(CheckedForm::Unresolved(p)) => c.0.open_grant(false, read, write, normalized)
                == Some(p),
            Err(_) => true,
        },
{
}

/// Over a coherent permission set with the blanket read grant, no read
/// request is denied, whatever the grants for single paths are.
pub proof fn lemma_read_all_never_denied<P: PermissionSet>(
    c: &PermissionsContainer<P>,
    path: Seq<char>,
    display: Seq<char>,
    origin: Seq<char>,
)
    requires
        c.0.grants_read_all(),
        coherent(&c.0),
    ensures
        c.read_outcome(path, origin) is Ok,
        c.read_all_outcome(origin) is Ok,
        c.read_blind_outcome(path, display, origin) is Ok,
{
}

/// Over a coherent permission set with the blanket write grant, no write
/// request is denied, whatever the grants for single paths are.
pub proof fn lemma_write_all_never_denied<P: PermissionSet>(
    c: &PermissionsContainer<P>,
    path: Seq<char>,
    display: Seq<char>,
    origin: Seq<char>,
)
    requires
        c.0.grants_write_all(),
        coherent(&c.0),
    ensures
        c.write_outcome(path, origin) is Ok,
        c.write_partial_outcome(path, origin) is Ok,
        c.write_all_outcome(origin) is Ok,
        c.write_blind_outcome(path, display, origin) is Ok,
{
}

/// Where the permission set holds neither a blanket grant nor any grant for
/// `path`, every request about `path` is denied.
pub proof fn lemma_no_grant_denies<P: PermissionSet>(
    c: &PermissionsContainer<P>,
    path: Seq<char>,
    display: Seq<char>,
    origin: Seq<char>,
)
    requires
        !c.0.grants_read_all(),
        !c.0.grants_write_all(),
        c.0.read_grant(path) is None,
        c.0.write_grant(path) is None,
        c.0.write_partial_grant(path) is None,
        !c.0.grants_read_blind(path),
        !c.0.grants_write_blind(path),
    ensures
        c.read_outcome(path, origin) is Err,
        c.read_all_outcome(origin) is Err,
        c.read_blind_outcome(path, display, origin) is Err,
        c.write_outcome(path, origin) is Err,
        c.write_partial_outcome(path, origin) is Err,
        c.write_all_outcome(origin) is Err,
        c.write_blind_outcome(path, display, origin) is Err,
{
}

/// Where the permission set holds no grant to open a path in the form it is
/// checked in, the open request is denied, and the denial is about that
/// form: the normalized path where it needed no canonicalization, else the
/// canonical one.
pub proof fn lemma_no_open_grant_denies<P: PermissionSet>(
    c: &PermissionsContainer<P>,
    read: bool,
    write: bool,
    needs_canonicalize: bool,
    normalized: Seq<char>,
    canonical: Seq<char>,
    origin: Seq<char>,
)
    requires
        !needs_canonicalize ==> c.0.open_grant(false, read, write, normalized) is None,
        needs_canonicalize ==> c.0.open_grant(true, read, write, canonical) is None,
    ensures
        c.open_outcome(read, write, Ok((needs_canonicalize, normalized)), Ok(canonical), origin)
            == Err::<CheckedForm, FsFailure>(
            FsFailure::NotCapable(
                Denial {
                    kind: AccessKind::Open,
                    subject: if needs_canonicalize {
                        canonical
                    } else {
                        normalized
                    },
                    origin,
                },
            ),
        ),
{
}

/// The denial of a blind request is about the display label: it is the same
/// whatever the path was, and its text is made of the label and the origin.
pub proof fn lemma_blind_denial_names_only_the_label<P: PermissionSet>(
    c: &PermissionsContainer<P>,
    path: Seq<char>,
    other_path: Seq<char>,
    display: Seq<char>,
    origin: Seq<char>,
)
    ensures
        c.read_blind_outcome(path, display, origin) matches Err(d) ==> {
            &&& d.subject == display
            &&& denial_text(d) == "Access Denied: "@ + display + " requested by "@ + origin
            &&& c.read_blind_outcome(other_path, display, origin) matches Err(e) ==> e == d
        },
        c.write_blind_outcome(path, display, origin) matches Err(d) ==> {
            &&& d.subject == display
            &&& denial_text(d) == "Access Denied: "@ + display + " requested by "@ + origin
            &&& c.write_blind_outcome(other_path, display, origin) matches Err(e) ==> e == d
        },
{
}

/// Asking twice gives the same answer: two results of one read request over
/// one permission set have the same content.
pub proof fn lemma_read_repeatable<P: PermissionSet>(
    c: &PermissionsContainer<P>,
    path: Seq<char>,
    display: Seq<char>,
    origin: Seq<char>,
    first: Result<String, PermissionDenied>,
    second: Result<String, PermissionDenied>,
    first_all: Result<(), PermissionDenied>,
    second_all: Result<(), PermissionDenied>,
    first_blind: Result<(), PermissionDenied>,
    second_blind: Result<(), PermissionDenied>,
)
    requires
        path_result(first) == c.read_outcome(path, origin),
        path_result(second) == c.read_outcome(path, origin),
        unit_result(first_all) == c.read_all_outcome(origin),
        unit_result(second_all) == c.read_all_outcome(origin),
        unit_result(first_blind) == c.read_blind_outcome(path, display, origin),
        unit_result(second_blind) == c.read_blind_outcome(path, display, origin),
    ensures
        path_result(first) == path_result(second),
        unit_result(first_all) == unit_result(second_all),
        unit_result(first_blind) == unit_result(second_blind),
{
}

/// Asking twice gives the same answer: two results of one write request
/// over one permission set have the same content.
pub proof fn lemma_write_repeatable<P: PermissionSet>(
    c: &PermissionsContainer<P>,
    path: Seq<char>,
    display: Seq<char>,
    origin: Seq<char>,
    first: Result<String, PermissionDenied>,
    second: Result<String, PermissionDenied>,
    first_partial: Result<String, PermissionDenied>,
    second_partial: Result<String, PermissionDenied>,
    first_all: Result<(), PermissionDenied>,
    second_all: Result<(), PermissionDenied>,
    first_blind: Result<(), PermissionDenied>,
    second_blind: Result<(), PermissionDenied>,
)
    requires
        path_result(first) == c.write_outcome(path, origin),
        path_result(second) == c.write_outcome(path, origin),
        path_result(first_partial) == c.write_partial_outcome(path, origin),
        path_result(second_partial) == c.write_partial_outcome(path, origin),
        unit_result(first_all) == c.write_all_outcome(origin),
        unit_result(second_all) == c.write_all_outcome(origin),
        unit_result(first_blind) == c.write_blind_outcome(path, display, origin),
        unit_result(second_blind) == c.write_blind_outcome(path, display, origin),
    ensures
        path_result(first) == path_result(second),
        path_result(first_partial) == path_result(second_partial),
        unit_result(first_all) == unit_result(second_all),
        unit_result(first_blind) == unit_result(second_blind),
{
}

/// Asking twice gives the same answer: two results of one open request over
/// one permission set, with the same answers from the resolver, have the
/// same content.
pub proof fn lemma_open_repeatable<P: PermissionSet>(
    c: &PermissionsContainer<P>,
    read: bool,
    write: bool,
    normalized: Result<(bool, Seq<char>), ResolutionError>,
    resolved: Result<Seq<char>, ResolutionError>,
    origin: Seq<char>,
    first: Result<CheckedPath, FsError>,
    second: Result<CheckedPath, FsError>,
)
    requires
        open_result(first) == c.open_outcome(read, write, normalized, resolved, origin),
        open_result(second) == c.open_outcome(read, write, normalized, resolved, origin),
    ensures
        open_result(first) == open_result(second),
{
}

/// A grant table is coherent: its blanket grants cover every path.
pub proof fn lemma_grant_table_coherent(t: &GrantTable)
    ensures
        coherent(t),
{
}

/// In a grant table a path is granted for reading exactly where the blanket
/// grant is set or a granted root is a leading part of the path, and the
/// mediator then hands the path back as it was asked.
pub proof fn lemma_grant_table_read(
    c: &PermissionsContainer<GrantTable>,
    path: Seq<char>,
    origin: Seq<char>,
)
    ensures
        c.0.may_read(path) ==> c.read_outcome(path, origin) == Ok::<Seq<char>, Denial>(path),
        !c.0.may_read(path) ==> c.read_outcome(path, origin) is Err,
{
}

/// Squeezing keeps the ends of a path: a path that is not empty stays so,
/// and begins and ends as before.
pub proof fn lemma_squeeze_keeps_ends(path: Seq<char>)
    requires
        path.len() > 0,
    ensures
        squeeze(path).len() > 0,
        squeeze(path).len() <= path.len(),
        squeeze(path).first() == path.first(),
        squeeze(path).last() == path.last(),
    decreases path.len(),
{
    let init = path.drop_last();
    if path.len() > 1 {
        lemma_squeeze_keeps_ends(init);
        assert(init.first() == path.first());
        assert(init.last() == path[path.len() - 2]);
    } else {
        assert(squeeze(init) =~= Seq::<char>::empty());
    }
}

/// A squeezed path has no two separators in a row.
pub proof fn lemma_squeeze_leaves_no_run(path: Seq<char>, i: int)
    requires
        0 < i < squeeze(path).len(),
    ensures
        !(squeeze(path)[i - 1] == '/' && squeeze(path)[i] == '/'),
    decreases path.len(),
{
    let init = path.drop_last();
    if path.len() > 1 {
        lemma_squeeze_keeps_ends(init);
        assert(init.last() == path[path.len() - 2]);
        if i < squeeze(init).len() {
            lemma_squeeze_leaves_no_run(init, i);
        }
    } else if path.len() == 1 {
        assert(squeeze(init) =~= Seq::<char>::empty());
    }
}

/// Squeezing changes nothing in a path that has no two separators in a row.
pub proof fn lemma_squeeze_keeps_clean_path(path: Seq<char>)
    requires
        forall|i: int| 0 < i < path.len() ==> !(path[i - 1] == '/' && #[trigger] path[i] == '/'),
    ensures
        squeeze(path) == path,
    decreases path.len(),
{
    if path.len() > 0 {
        lemma_squeeze_keeps_clean_path(path.drop_last());
        assert(path.drop_last().push(path.last()) =~= path);
    }
}

/// Squeezing twice is squeezing once.
pub proof fn lemma_squeeze_idempotent(path: Seq<char>)
    ensures
        squeeze(squeeze(path)) == squeeze(path),
{
    let s = squeeze(path);
    assert forall|i: int| 0 < i < s.len() implies !(s[i - 1] == '/' && #[trigger] s[i] == '/') by {
        lemma_squeeze_leaves_no_run(path, i);
    }
    lemma_squeeze_keeps_clean_path(s);
}

} // verus!
