use std::cell::RefCell;
use std::collections::HashMap;

use mustache_context::{Access, DefaultLoader, Error, FileLoader, IoFailure, IoKind, PartialLoader};

fn failure(kind: IoKind, message: &str) -> IoFailure {
    IoFailure { kind, message: message.to_string() }
}

fn templates() -> DefaultLoader {
    DefaultLoader::new("/templates".to_string(), "mustache".to_string())
}

#[test]
fn new_keeps_root_and_suffix() {
    let loader = DefaultLoader::new("/srv/views".to_string(), "tpl".to_string());
    assert_eq!(loader.template_path, "/srv/views");
    assert_eq!(loader.template_extension, "tpl");
}

#[test]
fn equality_is_by_root_and_suffix() {
    assert_eq!(templates(), templates());
    assert_ne!(templates(), DefaultLoader::new("/templates".to_string(), "html".to_string()));
    assert_ne!(templates(), DefaultLoader::new("/other".to_string(), "mustache".to_string()));
}

#[test]
fn a_clone_is_equal() {
    let loader = templates();
    assert_eq!(loader.clone(), loader);
}

#[test]
fn locate_joins_the_name_to_the_root_and_adds_the_suffix() {
    assert_eq!(
        templates().locate("greeting"),
        Ok("/templates/greeting.mustache".to_string())
    );
}

#[test]
fn locate_keeps_directories_in_the_name() {
    assert_eq!(
        templates().locate("mail/header"),
        Ok("/templates/mail/header.mustache".to_string())
    );
}

#[test]
fn locate_replaces_an_extension_that_the_name_carries() {
    let path = templates().locate("foo.txt");
    assert_eq!(path, Ok("/templates/foo.mustache".to_string()));
    assert_ne!(path, Ok("/templates/foo.txt.mustache".to_string()));
}

#[test]
fn locate_takes_the_part_after_the_last_dot_for_the_extension() {
    assert_eq!(templates().locate("v1.2"), Ok("/templates/v1.mustache".to_string()));
    assert_eq!(
        templates().locate("archive.tar.gz"),
        Ok("/templates/archive.tar.mustache".to_string())
    );
}

#[test]
fn locate_lets_an_absolute_name_take_the_place_of_the_root() {
    assert_eq!(templates().locate("/etc/motd"), Ok("/etc/motd.mustache".to_string()));
}

#[test]
fn locate_follows_the_standard_library_on_odd_names() {
    // a name that starts with a dot has no extension to replace
    assert_eq!(templates().locate(".hidden"), Ok("/templates/.hidden.mustache".to_string()));
    // a trailing separator does not count
    assert_eq!(templates().locate("mail/"), Ok("/templates/mail.mustache".to_string()));
    // without a name the root itself is the file
    assert_eq!(templates().locate(""), Ok("/templates.mustache".to_string()));
    // a path that ends in `..` has no file name to give an extension to
    assert_eq!(templates().locate(".."), Ok("/templates/..".to_string()));
}

#[test]
fn locate_does_not_mend_an_empty_suffix() {
    let loader = DefaultLoader::new("/templates".to_string(), String::new());
    assert_eq!(loader.locate("greeting"), Ok("/templates/greeting".to_string()));
    assert_eq!(loader.locate("greeting.txt"), Ok("/templates/greeting".to_string()));
}

#[test]
fn locate_refuses_a_suffix_with_a_separator() {
    let loader = DefaultLoader::new("/templates".to_string(), "a/b".to_string());
    assert_eq!(loader.locate("greeting"), Err(Error::InvalidStr));
}

#[test]
fn locate_accepts_a_suffix_with_a_dot() {
    let loader = DefaultLoader::new("/templates".to_string(), "html.mustache".to_string());
    assert_eq!(loader.locate("page"), Ok("/templates/page.html.mustache".to_string()));
}

#[test]
fn settle_returns_the_text_that_was_read() {
    assert_eq!(
        DefaultLoader::settle(Access::Contents(b"Hello".to_vec())),
        Ok("Hello".to_string())
    );
}

#[test]
fn settle_decodes_text_beyond_ascii() {
    let text = "gr\u{fc}\u{df} dich, \u{4e16}\u{754c} \u{1f600}";
    assert_eq!(
        DefaultLoader::settle(Access::Contents(text.as_bytes().to_vec())),
        Ok(text.to_string())
    );
}

#[test]
fn settle_takes_no_bytes_for_the_empty_text() {
    assert_eq!(DefaultLoader::settle(Access::Contents(Vec::new())), Ok(String::new()));
}

#[test]
fn settle_takes_a_missing_resource_for_the_empty_text() {
    let access = Access::Unopened(failure(IoKind::NotFound, "No such file or directory"));
    assert_eq!(DefaultLoader::settle(access), Ok(String::new()));
}

#[test]
fn settle_passes_on_every_other_failure_to_open() {
    for kind in [
        IoKind::PermissionDenied,
        IoKind::IsADirectory,
        IoKind::InvalidInput,
        IoKind::Other,
    ] {
        let denied = failure(kind, "refused");
        assert_eq!(
            DefaultLoader::settle(Access::Unopened(denied.clone())),
            Err(Error::Io(denied))
        );
    }
}

#[test]
fn settle_passes_on_every_failure_to_read() {
    for kind in [
        IoKind::NotFound,
        IoKind::PermissionDenied,
        IoKind::IsADirectory,
        IoKind::InvalidInput,
        IoKind::Other,
    ] {
        let broken = failure(kind, "read failed");
        assert_eq!(
            DefaultLoader::settle(Access::Unread(broken.clone())),
            Err(Error::Io(broken))
        );
    }
}

#[test]
fn settle_tells_bytes_that_are_no_text_from_a_missing_resource() {
    let undecodable = DefaultLoader::settle(Access::Contents(vec![0x48, 0x65, 0xff, 0xfe]));
    let missing = DefaultLoader::settle(Access::Unopened(failure(IoKind::NotFound, "gone")));
    assert_eq!(undecodable, Err(Error::InvalidText));
    assert_ne!(undecodable, missing);
}

#[test]
fn settle_refuses_encodings_that_utf8_forbids() {
    // an overlong encoding, a lone surrogate, a sequence cut short
    for bytes in [vec![0xc0, 0x80], vec![0xed, 0xa0, 0x80], vec![0xe4, 0xb8]] {
        assert_eq!(DefaultLoader::settle(Access::Contents(bytes)), Err(Error::InvalidText));
    }
}

#[test]
fn load_reads_the_located_path_once() {
    let asked = RefCell::new(Vec::new());
    let text = templates().load("greeting", |path: String| {
        asked.borrow_mut().push(path);
        Access::Contents(b"Hello".to_vec())
    });
    assert_eq!(text, Ok("Hello".to_string()));
    assert_eq!(asked.into_inner(), vec!["/templates/greeting.mustache".to_string()]);
}

#[test]
fn load_returns_what_the_store_holds() {
    let mut store: HashMap<String, Vec<u8>> = HashMap::new();
    store.insert("/templates/greeting.mustache".to_string(), b"Hello".to_vec());
    store.insert("/templates/bad.mustache".to_string(), vec![0x80]);
    let read = |path: String| match store.get(&path) {
        Some(bytes) => Access::Contents(bytes.clone()),
        None => Access::Unopened(failure(IoKind::NotFound, "not in the store")),
    };
    let loader = templates();
    assert_eq!(loader.load("greeting", &read), Ok("Hello".to_string()));
    assert_eq!(loader.load("greeting.html", &read), Ok("Hello".to_string()));
    assert_eq!(loader.load("missing", &read), Ok(String::new()));
    assert_eq!(loader.load("bad", &read), Err(Error::InvalidText));
}

#[test]
fn load_does_not_read_under_an_unusable_suffix() {
    let loader = DefaultLoader::new("/templates".to_string(), "mus/tache".to_string());
    let reads = RefCell::new(0);
    let text = loader.load("greeting", |_path: String| {
        *reads.borrow_mut() += 1;
        Access::Contents(b"Hello".to_vec())
    });
    assert_eq!(text, Err(Error::InvalidStr));
    assert_eq!(reads.into_inner(), 0);
}

#[test]
fn load_passes_on_a_failure_unchanged() {
    let denied = failure(IoKind::PermissionDenied, "Permission denied (os error 13)");
    let handed = denied.clone();
    let text = templates().load("secret", move |_path: String| Access::Unopened(handed));
    assert_eq!(text, Err(Error::Io(denied)));
}

#[test]
fn a_file_loader_keeps_its_policy() {
    let loader = FileLoader::new(templates(), |_path: String| Access::Contents(Vec::new()));
    assert_eq!(*loader.default_loader(), templates());
    assert_eq!(*loader.clone().default_loader(), templates());
}

#[test]
fn a_file_loader_loads_through_its_reader() {
    let mut store: HashMap<String, Vec<u8>> = HashMap::new();
    store.insert("/templates/greeting.mustache".to_string(), b"Hello".to_vec());
    store.insert("/templates/mail/footer.mustache".to_string(), "Gr\u{fc}\u{df}e".into());
    store.insert("/templates/bad.mustache".to_string(), vec![0x80]);
    let asked = RefCell::new(Vec::new());
    let read = |path: String| {
        asked.borrow_mut().push(path.clone());
        match store.get(&path) {
            Some(bytes) => Access::Contents(bytes.clone()),
            None => Access::Unopened(failure(IoKind::NotFound, "not in the store")),
        }
    };
    let loader = FileLoader::new(templates(), read);
    assert_eq!(loader.load("greeting"), Ok("Hello".to_string()));
    assert_eq!(loader.load("mail/footer"), Ok("Gr\u{fc}\u{df}e".to_string()));
    assert_eq!(loader.load("missing"), Ok(String::new()));
    assert_eq!(loader.load("bad"), Err(Error::InvalidText));
    assert_eq!(
        *asked.borrow(),
        vec![
            "/templates/greeting.mustache".to_string(),
            "/templates/mail/footer.mustache".to_string(),
            "/templates/missing.mustache".to_string(),
            "/templates/bad.mustache".to_string(),
        ]
    );
}

#[test]
fn a_file_loader_sees_the_store_change_between_calls() {
    let store = RefCell::new(HashMap::new());
    let read = |path: String| match store.borrow().get(&path) {
        Some(text) => Access::Contents(String::into_bytes(String::clone(text))),
        None => Access::Unopened(failure(IoKind::NotFound, "not in the store")),
    };
    let loader = FileLoader::new(templates(), read);
    assert_eq!(loader.load("greeting"), Ok(String::new()));
    store.borrow_mut().insert("/templates/greeting.mustache".to_string(), "Hello".to_string());
    assert_eq!(loader.load("greeting"), Ok("Hello".to_string()));
}

#[test]
fn a_clone_of_a_file_loader_loads_as_the_loader_does() {
    let read = |path: String| Access::Contents(path.into_bytes());
    let loader = FileLoader::new(templates(), read);
    let copy = loader.clone();
    for name in ["greeting", "a.b", "mail/header"] {
        assert_eq!(copy.load(name), loader.load(name));
    }
    assert_eq!(copy.load("greeting"), Ok("/templates/greeting.mustache".to_string()));
}

#[test]
fn only_a_failure_to_open_for_want_of_the_resource_is_missing() {
    assert!(Access::Unopened(failure(IoKind::NotFound, "gone")).is_missing());
    assert!(!Access::Unopened(failure(IoKind::PermissionDenied, "denied")).is_missing());
    assert!(!Access::Unread(failure(IoKind::NotFound, "gone")).is_missing());
    assert!(!Access::Contents(Vec::new()).is_missing());
}
