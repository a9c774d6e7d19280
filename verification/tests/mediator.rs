use fs_mediator::checked_path::CheckedPath;
use fs_mediator::error::{AccessKind, FsError, PermissionDenied, ResolutionError};
use fs_mediator::grant_table::{covers, starts_with, GrantTable};
use fs_mediator::mediator::{OpenStep, PermissionsContainer};
use fs_mediator::path_resolver::{climbs, has_nul, normalize, squeezed, PathResolver};

fn table(read_all: bool, write_all: bool, read: &[&str], write: &[&str]) -> GrantTable {
    let mut t = GrantTable::new();
    t.read_all = read_all;
    t.write_all = write_all;
    for r in read {
        t.allow_read(r);
    }
    for w in write {
        t.allow_write(w);
    }
    t
}

/// A resolver over a fixed working directory and a filesystem without
/// symlinks that holds the listed paths.
struct FixedResolver {
    cwd: String,
    existing: Vec<String>,
}

impl FixedResolver {
    fn new(cwd: &str, existing: &[&str]) -> Self {
        FixedResolver { cwd: cwd.to_string(), existing: existing.iter().map(|s| s.to_string()).collect() }
    }
}

impl PathResolver for FixedResolver {
    fn resolved(&self, normalized: &str) -> Result<String, ResolutionError> {
        let joined = if normalized.starts_with('/') {
            normalized.to_string()
        } else {
            format!("{}/{}", self.cwd, normalized)
        };
        let mut parts: Vec<&str> = Vec::new();
        for s in joined.split('/') {
            if s == ".." {
                parts.pop();
            } else if !s.is_empty() && s != "." {
                parts.push(s);
            }
        }
        let canonical = format!("/{}", parts.join("/"));
        if self.existing.iter().any(|e| *e == canonical) {
            Ok(canonical)
        } else {
            Err(ResolutionError::NotFound)
        }
    }
}

fn denied(r: Result<String, PermissionDenied>) -> PermissionDenied {
    match r {
        Ok(p) => panic!("granted {p}"),
        Err(d) => d,
    }
}

fn denied_unit(r: Result<(), PermissionDenied>) -> PermissionDenied {
    match r {
        Ok(()) => panic!("granted"),
        Err(d) => d,
    }
}

#[test]
fn write_all_only_allows_partial_write() {
    let c = PermissionsContainer::new(table(false, true, &[], &[]));
    let p = c.check_write_partial("/etc/passwd", "fs.writeFile").unwrap();
    assert_eq!(p, "/etc/passwd");
    assert_eq!(c.check_write("/etc/passwd", "fs.writeFile").unwrap(), "/etc/passwd");
    assert!(c.check_write_all("fs.writeFile").is_ok());
    assert!(c.check_read("/etc/passwd", "fs.readFile").is_err());
}

#[test]
fn read_root_grant_allows_inside_and_denies_outside() {
    let c = PermissionsContainer::new(table(false, false, &["/data/"], &[]));
    assert_eq!(c.check_read("/data/in.txt", "fs.readFile").unwrap(), "/data/in.txt");
    let d = denied(c.check_read("/etc/shadow", "fs.readFile"));
    assert_eq!(d.kind, AccessKind::Read);
    assert_eq!(d.subject, "/etc/shadow");
    assert_eq!(d.origin, "fs.readFile");
    assert!(c.check_read_all("fs.readFile").is_err());
}

#[test]
fn parent_segment_is_resolved_before_the_check() {
    let c = PermissionsContainer::new(table(true, false, &[], &[]));
    let fs = FixedResolver::new("/cwd", &["/cwd/b"]);
    let r = c.check_open(true, false, "./a/../b", "fs.open", &fs).unwrap();
    assert!(r.is_resolved());
    match r {
        CheckedPath::Resolved(p) => assert_eq!(p, "/cwd/b"),
        CheckedPath::Unresolved(p) => panic!("unresolved {p}"),
    }
}

#[test]
fn clean_absolute_path_stays_unresolved() {
    let c = PermissionsContainer::new(table(false, false, &["/data/"], &[]));
    let fs = FixedResolver::new("/cwd", &[]);
    let r = c.check_open(true, false, "/data//in.txt", "fs.open", &fs).unwrap();
    assert!(!r.is_resolved());
    assert_eq!(r.as_str(), "/data/in.txt");
    assert_eq!(r.into_string(), "/data/in.txt");
}

#[test]
fn open_is_checked_against_the_resolved_form() {
    let c = PermissionsContainer::new(table(false, false, &["/data/"], &[]));
    let fs = FixedResolver::new("/cwd", &["/etc/shadow", "/data/in.txt"]);
    match c.check_open(true, false, "/data/../etc/shadow", "fs.open", &fs) {
        Err(FsError::NotCapable(d)) => {
            assert_eq!(d.kind, AccessKind::Open);
            assert_eq!(d.subject, "/etc/shadow");
            assert_eq!(d.origin, "fs.open");
        }
        other => panic!("{other:?}"),
    }
    match c.check_open(true, false, "/etc/../data/in.txt", "fs.open", &fs) {
        Ok(CheckedPath::Resolved(p)) => assert_eq!(p, "/data/in.txt"),
        other => panic!("{other:?}"),
    }
}

#[test]
fn open_needs_every_requested_intent() {
    let c = PermissionsContainer::new(table(false, false, &["/data/"], &["/data/out/"]));
    let fs = FixedResolver::new("/cwd", &[]);
    assert!(c.check_open(true, false, "/data/in.txt", "fs.open", &fs).is_ok());
    assert!(c.check_open(true, true, "/data/in.txt", "fs.open", &fs).is_err());
    assert!(c.check_open(true, true, "/data/out/x", "fs.open", &fs).is_ok());
    assert!(c.check_open(false, true, "/data/in.txt", "fs.open", &fs).is_err());
    assert!(c.check_open(false, false, "/nowhere", "fs.open", &fs).is_ok());
}

#[test]
fn resolver_failures_are_handed_on() {
    let c = PermissionsContainer::new(table(true, true, &[], &[]));
    let fs = FixedResolver::new("/cwd", &[]);
    match c.check_open(true, false, "", "fs.open", &fs) {
        Err(FsError::Resolution(e)) => assert_eq!(e, ResolutionError::Malformed),
        other => panic!("{other:?}"),
    }
    match c.check_open(true, false, "missing", "fs.open", &fs) {
        Err(FsError::Resolution(e)) => assert_eq!(e, ResolutionError::NotFound),
        other => panic!("{other:?}"),
    }
}

#[test]
fn first_step_asks_for_resolution_without_checking() {
    let c = PermissionsContainer::new(table(false, false, &[], &[]));
    match c.check_open_normalized(true, false, Ok((true, "a/../b".to_string())), "fs.open") {
        OpenStep::Resolve(p) => assert_eq!(p, "a/../b"),
        other => panic!("{other:?}"),
    }
    match c.check_open_normalized(true, false, Ok((false, "/b".to_string())), "fs.open") {
        OpenStep::Done(Err(FsError::NotCapable(d))) => assert_eq!(d.subject, "/b"),
        other => panic!("{other:?}"),
    }
    match c.check_open_normalized(true, false, Err(ResolutionError::Malformed), "fs.open") {
        OpenStep::Done(Err(FsError::Resolution(e))) => assert_eq!(e, ResolutionError::Malformed),
        other => panic!("{other:?}"),
    }
}

#[test]
fn second_step_checks_the_canonical_form() {
    let c = PermissionsContainer::new(table(false, false, &["/cwd/"], &[]));
    match c.check_open_resolved(true, false, Ok("/cwd/b".to_string()), "fs.open") {
        Ok(CheckedPath::Resolved(p)) => assert_eq!(p, "/cwd/b"),
        other => panic!("{other:?}"),
    }
    match c.check_open_resolved(true, false, Ok("/etc/b".to_string()), "fs.open") {
        Err(FsError::NotCapable(d)) => assert_eq!(d.subject, "/etc/b"),
        other => panic!("{other:?}"),
    }
    match c.check_open_resolved(true, false, Err(ResolutionError::Unavailable), "fs.open") {
        Err(FsError::Resolution(e)) => assert_eq!(e, ResolutionError::Unavailable),
        other => panic!("{other:?}"),
    }
}

#[test]
fn blanket_read_grant_is_never_denied() {
    let c = PermissionsContainer::new(table(true, false, &["/data/"], &[]));
    for p in ["/data/in.txt", "/etc/shadow", "relative", ""] {
        assert_eq!(c.check_read(p, "fs.readFile").unwrap(), p);
        assert_eq!(c.check_read_path(p.to_string(), "fs.readFile").unwrap(), p);
        assert!(c.check_read_blind(p, "label", "fs.readFile").is_ok());
    }
    assert!(c.check_read_all("fs.readFile").is_ok());
}

#[test]
fn blanket_write_grant_is_never_denied() {
    let c = PermissionsContainer::new(table(false, true, &[], &["/data/"]));
    for p in ["/data/out.txt", "/etc/passwd", "relative", ""] {
        assert_eq!(c.check_write(p, "fs.writeFile").unwrap(), p);
        assert_eq!(c.check_write_path(p.to_string(), "fs.writeFile").unwrap(), p);
        assert_eq!(c.check_write_partial(p, "fs.writeFile").unwrap(), p);
        assert!(c.check_write_blind(p, "label", "fs.writeFile").is_ok());
    }
    assert!(c.check_write_all("fs.writeFile").is_ok());
}

#[test]
fn nothing_granted_means_everything_denied() {
    let c = PermissionsContainer::new(GrantTable::new());
    let fs = FixedResolver::new("/cwd", &["/cwd/x"]);
    assert_eq!(denied(c.check_read("/x", "api")).kind, AccessKind::Read);
    assert_eq!(denied(c.check_read_path("/x".to_string(), "api")).kind, AccessKind::Read);
    assert_eq!(denied_unit(c.check_read_all("api")).kind, AccessKind::ReadAll);
    assert_eq!(denied_unit(c.check_read_blind("/x", "label", "api")).kind, AccessKind::ReadBlind);
    assert_eq!(denied(c.check_write("/x", "api")).kind, AccessKind::Write);
    assert_eq!(denied(c.check_write_path("/x".to_string(), "api")).kind, AccessKind::Write);
    assert_eq!(denied(c.check_write_partial("/x", "api")).kind, AccessKind::WritePartial);
    assert_eq!(denied_unit(c.check_write_all("api")).kind, AccessKind::WriteAll);
    assert_eq!(denied_unit(c.check_write_blind("/x", "label", "api")).kind, AccessKind::WriteBlind);
    assert!(matches!(c.check_open(true, false, "/x", "api", &fs), Err(FsError::NotCapable(_))));
    assert!(matches!(c.check_open(false, true, "x", "api", &fs), Err(FsError::NotCapable(_))));
}

#[test]
fn blanket_denial_has_no_subject() {
    let c = PermissionsContainer::new(GrantTable::new());
    let d = denied_unit(c.check_read_all("fs.readDir"));
    assert_eq!(d.subject, "");
    assert_eq!(d.origin, "fs.readDir");
    let d = denied_unit(c.check_write_all("fs.remove"));
    assert_eq!(d.subject, "");
    assert_eq!(d.origin, "fs.remove");
}

#[test]
fn blind_denial_names_the_label_not_the_path() {
    let c = PermissionsContainer::new(table(false, false, &["/data/"], &["/data/"]));
    let d = denied_unit(c.check_read_blind("/home/me/secret", "TMP", "fs.readFile"));
    assert_eq!(d.kind, AccessKind::ReadBlind);
    assert_eq!(d.subject, "TMP");
    assert_eq!(d.message(), "Access Denied: TMP requested by fs.readFile");
    assert!(!d.message().contains("/home/me/secret"));
    let d = denied_unit(c.check_write_blind("/home/me/secret", "TMP", "fs.writeFile"));
    assert_eq!(d.kind, AccessKind::WriteBlind);
    assert_eq!(d.subject, "TMP");
    assert_eq!(d.message(), "Access Denied: TMP requested by fs.writeFile");
    assert!(c.check_read_blind("/data/x", "TMP", "fs.readFile").is_ok());
    assert!(c.check_write_blind("/data/x", "TMP", "fs.writeFile").is_ok());
}

#[test]
fn asking_twice_gives_the_same_answer() {
    let c = PermissionsContainer::new(table(false, false, &["/data/"], &[]));
    let fs = FixedResolver::new("/cwd", &["/data/in.txt"]);
    for p in ["/data/in.txt", "/etc/shadow"] {
        let a = c.check_read(p, "api").map_err(|d| d.message());
        let b = c.check_read(p, "api").map_err(|d| d.message());
        assert_eq!(a, b);
        let a = c.check_write(p, "api").map_err(|d| d.message());
        let b = c.check_write(p, "api").map_err(|d| d.message());
        assert_eq!(a, b);
        let a = c.check_open(true, false, p, "api", &fs).map(CheckedPath::into_string).map_err(|e| e.message());
        let b = c.check_open(true, false, p, "api", &fs).map(CheckedPath::into_string).map_err(|e| e.message());
        assert_eq!(a, b);
    }
}

#[test]
fn denial_message_is_exact() {
    let d = PermissionDenied::new(AccessKind::Read, "/etc/shadow", "fs.readFile");
    assert_eq!(d.message(), "Access Denied: /etc/shadow requested by fs.readFile");
    let e = FsError::NotCapable(d);
    assert_eq!(e.message(), "Access Denied: /etc/shadow requested by fs.readFile");
}

#[test]
fn resolution_messages_are_exact() {
    assert_eq!(FsError::Resolution(ResolutionError::Malformed).message(), "malformed path");
    assert_eq!(FsError::Resolution(ResolutionError::NotFound).message(), "path not found");
    assert_eq!(FsError::Resolution(ResolutionError::Unavailable).message(), "path cannot be resolved");
}

#[test]
fn prefix_match_is_by_character() {
    assert!(starts_with("/data/in.txt", "/data/"));
    assert!(starts_with("/data/", "/data/"));
    assert!(starts_with("anything", ""));
    assert!(!starts_with("/data", "/data/"));
    assert!(!starts_with("/dbta/in.txt", "/data/"));
    assert!(starts_with("/données/é", "/données/"));
    assert!(!starts_with("/donnees/é", "/données/"));
}

#[test]
fn covers_looks_at_every_root() {
    let roots = vec!["/a/".to_string(), "/b/".to_string()];
    assert!(covers(&roots, "/a/x"));
    assert!(covers(&roots, "/b/x"));
    assert!(!covers(&roots, "/c/x"));
    assert!(!covers(&Vec::new(), "/a/x"));
}

#[test]
fn partial_write_follows_the_write_roots() {
    let c = PermissionsContainer::new(table(false, false, &[], &["/out/"]));
    assert_eq!(c.check_write_partial("/out/a", "api").unwrap(), "/out/a");
    let d = denied(c.check_write_partial("/etc/a", "api"));
    assert_eq!(d.kind, AccessKind::WritePartial);
    assert_eq!(d.subject, "/etc/a");
}

#[test]
fn normalize_rejects_malformed_paths() {
    assert_eq!(normalize(""), Err(ResolutionError::Malformed));
    assert_eq!(normalize("/a\0b"), Err(ResolutionError::Malformed));
    assert_eq!(normalize("\0"), Err(ResolutionError::Malformed));
    assert!(has_nul("a\0"));
    assert!(!has_nul("a0"));
    assert!(!has_nul(""));
}

#[test]
fn normalize_decides_from_the_characters() {
    assert_eq!(normalize("/data/in.txt"), Ok((false, "/data/in.txt".to_string())));
    assert_eq!(normalize("/"), Ok((false, "/".to_string())));
    assert_eq!(normalize("/a/./b"), Ok((false, "/a/./b".to_string())));
    assert_eq!(normalize("/a/..b/c.."), Ok((false, "/a/..b/c..".to_string())));
    assert_eq!(normalize("/a/.../b"), Ok((false, "/a/.../b".to_string())));
    assert_eq!(normalize("./a/../b"), Ok((true, "./a/../b".to_string())));
    assert_eq!(normalize("data/in.txt"), Ok((true, "data/in.txt".to_string())));
    assert_eq!(normalize("/a/../b"), Ok((true, "/a/../b".to_string())));
    assert_eq!(normalize("/a/.."), Ok((true, "/a/..".to_string())));
    assert_eq!(normalize("/.."), Ok((true, "/..".to_string())));
    assert_eq!(normalize(".."), Ok((true, "..".to_string())));
    assert_eq!(normalize("/é/../ü"), Ok((true, "/é/../ü".to_string())));
}

#[test]
fn parent_segments_are_whole_segments() {
    assert!(climbs(".."));
    assert!(climbs("../a"));
    assert!(climbs("a/.."));
    assert!(climbs("a/../b"));
    assert!(climbs("/a//..//b"));
    assert!(!climbs(""));
    assert!(!climbs("."));
    assert!(!climbs("..."));
    assert!(!climbs("a..b"));
    assert!(!climbs("a/..b"));
    assert!(!climbs("a../b"));
    assert!(!climbs("é.."));
}

#[test]
fn separators_are_squeezed() {
    assert_eq!(squeezed(""), "");
    assert_eq!(squeezed("/"), "/");
    assert_eq!(squeezed("//"), "/");
    assert_eq!(squeezed("///a//b/c///"), "/a/b/c/");
    assert_eq!(squeezed("a/b"), "a/b");
    assert_eq!(squeezed("é//ü"), "é/ü");
    assert_eq!(normalize("//data///in.txt"), Ok((false, "/data/in.txt".to_string())));
}

#[test]
fn malformed_path_is_refused_before_any_grant_is_asked() {
    let c = PermissionsContainer::new(table(true, true, &[], &[]));
    let fs = FixedResolver::new("/cwd", &["/cwd/b"]);
    match c.check_open(true, true, "/a\0b", "fs.open", &fs) {
        Err(FsError::Resolution(e)) => assert_eq!(e, ResolutionError::Malformed),
        other => panic!("{other:?}"),
    }
}
