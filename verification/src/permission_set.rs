//! The permission set: the grants the embedding host has made, as the
//! mediator sees them.
use vstd::prelude::*;

verus! {

/// The characters of a path, as contracts speak of it.
pub type PathText = Seq<char>;

/// The content of an optional path.
pub open spec fn grant_view(granted: Option<String>) -> Option<Seq<char>> {
    match granted {
        Some(p) => Some(p@),
        None => None,
    }
}

/// The grants held by the embedding host. The mediator only queries them.
///
/// A grant is a matter of the category (read or write) and of the path; the
/// label of the requesting API is handed to each query for auditing and does
/// not decide it. A query takes `&self`: asking changes nothing.
///
/// The functions on `PathText` are the model of the set: what it grants, as
/// contracts speak of it. The `check_` functions are the queries, and each
/// answers as the model says. An implementation that is not verified
/// promises this on its own account.
pub trait PermissionSet {
    /// Whether reading is granted for every path.
    spec fn grants_read_all(&self) -> bool;

    /// Whether writing is granted for every path.
    spec fn grants_write_all(&self) -> bool;

    /// The path to read from where a grant covers `path`, else `None`.
    spec fn read_grant(&self, path: PathText) -> Option<PathText>;

    /// The path to write to where a grant covers `path`, else `None`.
    spec fn write_grant(&self, path: PathText) -> Option<PathText>;

    /// The path to write to where a grant covers `path` or something below
    /// it, else `None`.
    spec fn write_partial_grant(&self, path: PathText) -> Option<PathText>;

    /// Whether `path` may be read by a caller that is shown only a label.
    spec fn grants_read_blind(&self, path: PathText) -> bool;

    /// Whether `path` may be written by a caller that is shown only a label.
    spec fn grants_write_blind(&self, path: PathText) -> bool;

    /// The path to open where the grants cover `path` for the intent given by
    /// `read` and `write`, else `None`. With `strict`, `path` is taken to be
    /// canonical and is matched as it stands.
    spec fn open_grant(&self, strict: bool, read: bool, write: bool, path: PathText) -> Option<
        PathText,
    >;

    /// Asks for the blanket read grant.
    fn check_read_all(&self, api_name: &str) -> (granted: bool)
        ensures
            granted == self.grants_read_all(),
    ;

    /// Asks for the blanket write grant.
    fn check_write_all(&self, api_name: &str) -> (granted: bool)
        ensures
            granted == self.grants_write_all(),
    ;

    /// Asks for the grant to read `path`, and for the path to read from.
    fn check_read(&self, path: &str, api_name: &str) -> (granted: Option<String>)
        ensures
            grant_view(granted) == self.read_grant(path@),
    ;

    /// Asks for the grant to write `path`, and for the path to write to.
    fn check_write(&self, path: &str, api_name: &str) -> (granted: Option<String>)
        ensures
            grant_view(granted) == self.write_grant(path@),
    ;

    /// Asks for the grant to write `path` or something below it.
    fn check_write_partial(&self, path: &str, api_name: &str) -> (granted: Option<String>)
        ensures
            grant_view(granted) == self.write_partial_grant(path@),
    ;

    /// Asks for the grant to read `path` on behalf of a caller that knows it
    /// as `display`.
    fn check_read_blind(&self, path: &str, display: &str, api_name: &str) -> (granted: bool)
        ensures
            granted == self.grants_read_blind(path@),
    ;

    /// Asks for the grant to write `path` on behalf of a caller that knows
    /// it as `display`.
    fn check_write_blind(&self, path: &str, display: &str, api_name: &str) -> (granted: bool)
        ensures
            granted == self.grants_write_blind(path@),
    ;

    /// Asks for the grant to open `path` with the given intent.
    fn check_open(&self, strict: bool, read: bool, write: bool, path: &str, api_name: &str) -> (granted:
        Option<String>)
        ensures
            grant_view(granted) == self.open_grant(strict, read, write, path@),
    ;
}

/// A permission set is coherent where a blanket grant covers every path:
/// with read-all, each path has its read grant, blind or not, and likewise
/// for writing.
pub open spec fn coherent<P: PermissionSet>(perms: &P) -> bool {
    &&& perms.grants_read_all() ==> forall|path: Seq<char>|
        (#[trigger] perms.read_grant(path)) is Some
    &&& perms.grants_read_all() ==> forall|path: Seq<char>| #[trigger]
        perms.grants_read_blind(path)
    &&& perms.grants_write_all() ==> forall|path: Seq<char>|
        (#[trigger] perms.write_grant(path)) is Some
    &&& perms.grants_write_all() ==> forall|path: Seq<char>|
        (#[trigger] perms.write_partial_grant(path)) is Some
    &&& perms.grants_write_all() ==> forall|path: Seq<char>| #[trigger]
        perms.grants_write_blind(path)
}

} // verus!
