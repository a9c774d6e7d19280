//! A permission set kept as a table: a blanket flag and a list of granted
//! roots for reading, and the same for writing.
use vstd::prelude::*;
use vstd::string::{StrSliceExecFns, StringExecFns};
use crate::permission_set::PermissionSet;

verus! {

/// Whether one of `roots` is a leading part of `path`.
pub open spec fn covered(roots: Seq<String>, path: Seq<char>) -> bool {
    exists|i: int| 0 <= i < roots.len() && (#[trigger] roots[i])@.is_prefix_of(path)
}

/// The path itself where `granted`, else nothing.
pub open spec fn grant_if(granted: bool, path: Seq<char>) -> Option<Seq<char>> {
    if granted {
        Some(path)
    } else {
        None
    }
}

/// Whether `path` begins with `root`, character by character.
pub fn starts_with(path: &str, root: &str) -> (b: bool)
    ensures
        b == root@.is_prefix_of(path@),
{
    let n: usize = root.unicode_len();
    let m: usize = path.unicode_len();
    if n > m {
        return false;
    }
    let mut i: usize = 0;
    while i < n
        invariant
            i <= n,
            n == root@.len(),
            m == path@.len(),
            n <= m,
            forall|k: int| 0 <= k < i ==> root@[k] == path@[k],
        decreases n - i,
    {
        if root.get_char(i) != path.get_char(i) {
            proof {
                assert(path@.subrange(0, n as int)[i as int] == path@[i as int]);
            }
            return false;
        }
        i += 1;
    }
    proof {
        assert(root@ =~= path@.subrange(0, n as int));
    }
    true
}

/// Whether one of `roots` is a leading part of `path`.
pub fn covers(roots: &Vec<String>, path: &str) -> (b: bool)
    ensures
        b == covered(roots@, path@),
{
    let mut i: usize = 0;
    while i < roots.len()
        invariant
            i <= roots.len(),
            forall|k: int| 0 <= k < i ==> !(#[trigger] roots@[k])@.is_prefix_of(path@),
        decreases roots.len() - i,
    {
        if starts_with(path, roots[i].as_str()) {
            return true;
        }
        i += 1;
    }
    false
}

/// With one more root at the end, a path is covered where it was covered
/// before or begins with the new root.
pub proof fn lemma_covered_after_push(before: Seq<String>, after: Seq<String>, path: Seq<char>)
    requires
        after.len() == before.len() + 1,
        after.drop_last() == before,
    ensures
        covered(after, path) == (covered(before, path) || after.last()@.is_prefix_of(path)),
{
    if covered(before, path) {
        let i = choose|i: int| 0 <= i < before.len() && (#[trigger] before[i])@.is_prefix_of(path);
        assert(after[i] == before[i]);
    }
    if after.last()@.is_prefix_of(path) {
        assert(after[after.len() - 1]@.is_prefix_of(path));
    }
    if covered(after, path) {
        let i = choose|i: int| 0 <= i < after.len() && (#[trigger] after[i])@.is_prefix_of(path);
        if i < before.len() {
            assert(before[i] == after[i]);
        }
    }
}

/// The granted path as an owned string, where `granted`.
fn grant_path(granted: bool, path: &str) -> (g: Option<String>)
    ensures
        crate::permission_set::grant_view(g) == grant_if(granted, path@),
{
    if granted {
        Some(String::from_str(path))
    } else {
        None
    }
}

/// Grants by table. A path is granted for reading where `read_all` is set
/// or one of `read_roots` is a leading part of it; likewise for writing. A
/// granted path is handed back as it was asked. Roots are matched by their
/// characters, so an open request is answered alike with and without
/// strict matching; one that states no intent is granted.
#[derive(Debug)]
pub struct GrantTable {
    pub read_all: bool,
    pub write_all: bool,
    pub read_roots: Vec<String>,
    pub write_roots: Vec<String>,
}

impl GrantTable {
    /// Whether `path` may be read.
    pub open spec fn may_read(&self, path: Seq<char>) -> bool {
        self.read_all || covered(self.read_roots@, path)
    }

    /// Whether `path` may be written.
    pub open spec fn may_write(&self, path: Seq<char>) -> bool {
        self.write_all || covered(self.write_roots@, path)
    }

    /// Whether `path` may be opened with the given intent.
    pub open spec fn may_open(&self, read: bool, write: bool, path: Seq<char>) -> bool {
        (read ==> self.may_read(path)) && (write ==> self.may_write(path))
    }

    /// The table with no grant in it.
    pub fn new() -> (t: GrantTable)
        ensures
            !t.read_all,
            !t.write_all,
            t.read_roots@.len() == 0,
            t.write_roots@.len() == 0,
    {
        GrantTable {
            read_all: false,
            write_all: false,
            read_roots: Vec::new(),
            write_roots: Vec::new(),
        }
    }

    /// Grants reading of every path that begins with `root`.
    pub fn allow_read(&mut self, root: &str)
        ensures
            final(self).read_roots@.len() == old(self).read_roots@.len() + 1,
            final(self).read_roots@.last()@ == root@,
            final(self).read_roots@.drop_last() == old(self).read_roots@,
            final(self).write_roots == old(self).write_roots,
            final(self).read_all == old(self).read_all,
            final(self).write_all == old(self).write_all,
            forall|path: Seq<char>| #[trigger]
                final(self).may_read(path) == (old(self).may_read(path) || root@.is_prefix_of(path)),
    {
        self.read_roots.push(String::from_str(root));
        proof {
            assert(self.read_roots@.drop_last() =~= old(self).read_roots@);
            assert forall|path: Seq<char>| #[trigger]
                self.may_read(path) == (old(self).may_read(path) || root@.is_prefix_of(
                    path,
                )) by {
                lemma_covered_after_push(old(self).read_roots@, self.read_roots@, path);
            }
        }
    }

    /// Grants writing of every path that begins with `root`.
    pub fn allow_write(&mut self, root: &str)
        ensures
            final(self).write_roots@.len() == old(self).write_roots@.len() + 1,
            final(self).write_roots@.last()@ == root@,
            final(self).write_roots@.drop_last() == old(self).write_roots@,
            final(self).read_roots == old(self).read_roots,
            final(self).read_all == old(self).read_all,
            final(self).write_all == old(self).write_all,
            forall|path: Seq<char>| #[trigger]
                final(self).may_write(path) == (old(self).may_write(path) || root@.is_prefix_of(
                    path,
                )),
    {
        self.write_roots.push(String::from_str(root));
        proof {
            assert(self.write_roots@.drop_last() =~= old(self).write_roots@);
            assert forall|path: Seq<char>| #[trigger]
                self.may_write(path) == (old(self).may_write(path) || root@.is_prefix_of(
                    path,
                )) by {
                lemma_covered_after_push(old(self).write_roots@, self.write_roots@, path);
            }
        }
    }

    fn can_read(&self, path: &str) -> (b: bool)
        ensures
            b == self.may_read(path@),
    {
        self.read_all || covers(&self.read_roots, path)
    }

    fn can_write(&self, path: &str) -> (b: bool)
        ensures
            b == self.may_write(path@),
    {
        self.write_all || covers(&self.write_roots, path)
    }
}

impl PermissionSet for GrantTable {
    open spec fn grants_read_all(&self) -> bool {
        self.read_all
    }

    open spec fn grants_write_all(&self) -> bool {
        self.write_all
    }

    open spec fn read_grant(&self, path: Seq<char>) -> Option<Seq<char>> {
        grant_if(self.may_read(path), path)
    }

    open spec fn write_grant(&self, path: Seq<char>) -> Option<Seq<char>> {
        grant_if(self.may_write(path), path)
    }

    open spec fn write_partial_grant(&self, path: Seq<char>) -> Option<Seq<char>> {
        grant_if(self.may_write(path), path)
    }

    open spec fn grants_read_blind(&self, path: Seq<char>) -> bool {
        self.may_read(path)
    }

    open spec fn grants_write_blind(&self, path: Seq<char>) -> bool {
        self.may_write(path)
    }

    open spec fn open_grant(&self, strict: bool, read: bool, write: bool, path: Seq<char>) -> Option<
        Seq<char>,
    > {
        grant_if(self.may_open(read, write, path), path)
    }

    fn check_read_all(&self, api_name: &str) -> (granted: bool) {
        self.read_all
    }

    fn check_write_all(&self, api_name: &str) -> (granted: bool) {
        self.write_all
    }

    fn check_read(&self, path: &str, api_name: &str) -> (granted: Option<String>) {
        grant_path(self.can_read(path), path)
    }

    fn check_write(&self, path: &str, api_name: &str) -> (granted: Option<String>) {
        grant_path(self.can_write(path), path)
    }

    fn check_write_partial(&self, path: &str, api_name: &str) -> (granted: Option<String>) {
        grant_path(self.can_write(path), path)
    }

    fn check_read_blind(&self, path: &str, display: &str, api_name: &str) -> (granted: bool) {
        self.can_read(path)
    }

    fn check_write_blind(&self, path: &str, display: &str, api_name: &str) -> (granted: bool) {
        self.can_write(path)
    }

    fn check_open(&self, strict: bool, read: bool, write: bool, path: &str, api_name: &str) -> (granted:
        Option<String>) {
        let read_ok = !read || self.can_read(path);
        let write_ok = !write || self.can_write(path);
        grant_path(read_ok && write_ok, path)
    }
}

} // verus!
