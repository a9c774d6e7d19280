use fs_mediator::error::AccessKind;
use fs_mediator::mediator::PermissionsContainer;
use fs_mediator::permission_set::{PathText, PermissionSet};

/// A set that claims the blanket grants and still refuses one path, and that
/// hands back granted paths in upper case.
struct Stubborn {
    refused: String,
}

impl Stubborn {
    fn answer(&self, path: &str) -> Option<String> {
        if path == self.refused {
            None
        } else {
            Some(path.to_uppercase())
        }
    }
}

// The first eight functions are the set's model, which only contracts read.
impl PermissionSet for Stubborn {
    fn grants_read_all(&self) -> bool {
        unreachable!()
    }

    fn grants_write_all(&self) -> bool {
        unreachable!()
    }

    fn read_grant(&self, _path: PathText) -> Option<PathText> {
        unreachable!()
    }

    fn write_grant(&self, _path: PathText) -> Option<PathText> {
        unreachable!()
    }

    fn write_partial_grant(&self, _path: PathText) -> Option<PathText> {
        unreachable!()
    }

    fn grants_read_blind(&self, _path: PathText) -> bool {
        unreachable!()
    }

    fn grants_write_blind(&self, _path: PathText) -> bool {
        unreachable!()
    }

    fn open_grant(&self, _strict: bool, _read: bool, _write: bool, _path: PathText) -> Option<PathText> {
        unreachable!()
    }

    fn check_read_all(&self, _api_name: &str) -> bool {
        true
    }

    fn check_write_all(&self, _api_name: &str) -> bool {
        true
    }

    fn check_read(&self, path: &str, _api_name: &str) -> Option<String> {
        self.answer(path)
    }

    fn check_write(&self, path: &str, _api_name: &str) -> Option<String> {
        self.answer(path)
    }

    fn check_write_partial(&self, path: &str, _api_name: &str) -> Option<String> {
        self.answer(path)
    }

    fn check_read_blind(&self, path: &str, _display: &str, _api_name: &str) -> bool {
        path != self.refused
    }

    fn check_write_blind(&self, path: &str, _display: &str, _api_name: &str) -> bool {
        path != self.refused
    }

    fn check_open(&self, _strict: bool, _read: bool, _write: bool, path: &str, _api_name: &str) -> Option<String> {
        self.answer(path)
    }
}

#[test]
fn specific_denial_wins_over_blanket_grant() {
    let c = PermissionsContainer::new(Stubborn { refused: "/x".to_string() });
    assert!(c.check_read_all("api").is_ok());
    let d = c.check_read("/x", "api").unwrap_err();
    assert_eq!(d.kind, AccessKind::Read);
    assert_eq!(d.subject, "/x");
    assert!(c.check_write("/x", "api").is_err());
    assert!(c.check_write_partial("/x", "api").is_err());
    assert!(c.check_read_blind("/x", "L", "api").is_err());
    assert!(c.check_write_blind("/x", "L", "api").is_err());
}

#[test]
fn the_granted_form_is_what_comes_back() {
    let c = PermissionsContainer::new(Stubborn { refused: "/x".to_string() });
    assert_eq!(c.check_read("/a/b", "api").unwrap(), "/A/B");
    assert_eq!(c.check_write("/a/b", "api").unwrap(), "/A/B");
    assert_eq!(c.check_write_partial("/a/b", "api").unwrap(), "/A/B");
    assert_eq!(c.check_read_path("/a/b".to_string(), "api").unwrap(), "/A/B");
    assert_eq!(c.check_write_path("/a/b".to_string(), "api").unwrap(), "/A/B");
    let r = c.check_open_resolved(true, false, Ok("/a/b".to_string()), "api").unwrap();
    assert!(r.is_resolved());
    assert_eq!(r.as_str(), "/A/B");
}
