use rustup_core::errors::Error;
use rustup_core::overrides::{override_add, InstallStatus, OverrideStore};

fn pair(dir: &str, toolchain: &str) -> (String, String) {
    (String::from(dir), String::from(toolchain))
}

#[test]
fn new_store_is_empty() {
    let store = OverrideStore::new();
    assert_eq!(store.len(), 0);
    assert_eq!(store.list(), Vec::<(String, String)>::new());
    assert_eq!(store.get("/work"), None);
}

#[test]
fn set_then_list_shows_one_entry() {
    let mut store = OverrideStore::new();
    store.set(String::from("/work/project"), String::from("nightly"));
    assert_eq!(store.list(), vec![pair("/work/project", "nightly")]);
    assert_eq!(store.len(), 1);
}

#[test]
fn second_set_replaces_the_entry() {
    let mut store = OverrideStore::new();
    store.set(String::from("/work/project"), String::from("nightly"));
    store.set(String::from("/work/project"), String::from("stable"));
    assert_eq!(store.list(), vec![pair("/work/project", "stable")]);
    let for_dir = store.list().iter().filter(|e| e.0 == "/work/project").count();
    assert_eq!(for_dir, 1);
}

#[test]
fn setting_the_same_value_again_changes_nothing() {
    let mut store = OverrideStore::new();
    store.set(String::from("/a"), String::from("nightly"));
    let once = store.list();
    store.set(String::from("/a"), String::from("nightly"));
    assert_eq!(store.list(), once);
}

#[test]
fn a_replaced_entry_keeps_its_place() {
    let mut store = OverrideStore::new();
    store.set(String::from("/a"), String::from("nightly"));
    store.set(String::from("/b"), String::from("beta"));
    store.set(String::from("/c"), String::from("stable"));
    store.set(String::from("/b"), String::from("1.8.0"));
    assert_eq!(
        store.list(),
        vec![pair("/a", "nightly"), pair("/b", "1.8.0"), pair("/c", "stable")]
    );
    assert_eq!(store.len(), 3);
}

#[test]
fn other_directories_are_untouched() {
    let mut store = OverrideStore::new();
    store.set(String::from("/a"), String::from("nightly"));
    store.set(String::from("/b"), String::from("beta"));
    assert_eq!(store.get("/a"), Some(String::from("nightly")));
    assert_eq!(store.get("/b"), Some(String::from("beta")));
    store.set(String::from("/a"), String::from("stable"));
    assert_eq!(store.get("/a"), Some(String::from("stable")));
    assert_eq!(store.get("/b"), Some(String::from("beta")));
}

#[test]
fn lookup_is_for_the_exact_directory() {
    let mut store = OverrideStore::new();
    store.set(String::from("/work"), String::from("nightly"));
    assert_eq!(store.get("/work"), Some(String::from("nightly")));
    assert_eq!(store.get("/work/project"), None);
    assert_eq!(store.get("/work/"), None);
    assert_eq!(store.get("/"), None);
    assert_eq!(store.get("/WORK"), None);
}

#[test]
fn many_directories_stay_unique() {
    let mut store = OverrideStore::new();
    for round in 0..3 {
        for i in 0..20 {
            store.set(format!("/dir/{}", i), format!("toolchain-{}-{}", round, i));
        }
    }
    assert_eq!(store.len(), 20);
    let list = store.list();
    for i in 0..20 {
        assert_eq!(list[i], (format!("/dir/{}", i), format!("toolchain-2-{}", i)));
    }
}

#[test]
fn custom_toolchain_on_disk_is_pinned() {
    let mut store = OverrideStore::new();
    let added = override_add(&mut store, "/work", "my-custom-build", true, None);
    assert_eq!(added, Ok(None));
    assert_eq!(store.list(), vec![pair("/work", "my-custom-build")]);
}

#[test]
fn custom_toolchain_that_is_missing_is_refused() {
    let mut store = OverrideStore::new();
    store.set(String::from("/work"), String::from("stable"));
    let added = override_add(&mut store, "/work", "my-custom-build", false, None);
    assert_eq!(added, Err(Error::ToolchainNotInstalled(String::from("my-custom-build"))));
    assert_eq!(store.list(), vec![pair("/work", "stable")]);
    assert_eq!(
        added.unwrap_err().message(),
        "toolchain 'my-custom-build' is not installed"
    );
}

#[test]
fn an_installer_answer_does_not_make_a_custom_toolchain_exist() {
    let mut store = OverrideStore::new();
    let added = override_add(
        &mut store,
        "/work",
        "my-custom-build",
        false,
        Some(Ok(InstallStatus::Installed)),
    );
    assert_eq!(added, Err(Error::ToolchainNotInstalled(String::from("my-custom-build"))));
    assert_eq!(store.len(), 0);
}

#[test]
fn distribution_toolchain_is_pinned_after_installation() {
    let mut store = OverrideStore::new();
    let added = override_add(
        &mut store,
        "/work",
        "nightly-x86_64-unknown-linux-gnu",
        false,
        Some(Ok(InstallStatus::Installed)),
    );
    assert_eq!(added, Ok(Some(InstallStatus::Installed)));
    assert_eq!(store.list(), vec![pair("/work", "nightly-x86_64-unknown-linux-gnu")]);
    let again = override_add(
        &mut store,
        "/work",
        "nightly-x86_64-unknown-linux-gnu",
        true,
        Some(Ok(InstallStatus::Unchanged)),
    );
    assert_eq!(again, Ok(Some(InstallStatus::Unchanged)));
    assert_eq!(store.len(), 1);
}

#[test]
fn failed_installation_writes_no_override() {
    let mut store = OverrideStore::new();
    let added = override_add(
        &mut store,
        "/work",
        "nightly",
        false,
        Some(Err(String::from("could not download file"))),
    );
    assert_eq!(added, Err(Error::Io(String::from("could not download file"))));
    assert_eq!(store.len(), 0);
    assert_eq!(added.unwrap_err().message(), "could not download file");
}

#[test]
fn distribution_toolchain_needs_the_installer() {
    let mut store = OverrideStore::new();
    let added = override_add(&mut store, "/work", "stable", true, None);
    assert_eq!(added, Err(Error::ToolchainNotInstalled(String::from("stable"))));
    assert_eq!(store.len(), 0);
}

#[test]
fn settings_text_has_a_line_for_each_entry() {
    let mut store = OverrideStore::new();
    assert_eq!(store.encode(), "");
    store.set(String::from("/work/a"), String::from("nightly"));
    store.set(String::from("/work/b"), String::from("stable-x86_64-unknown-linux-gnu"));
    assert_eq!(store.encode(), "/work/a;nightly\n/work/b;stable-x86_64-unknown-linux-gnu\n");
}

#[test]
fn settings_text_is_read_back() {
    let store = OverrideStore::decode("/work/a;nightly\n/work/b;beta\n");
    assert_eq!(store.list(), vec![pair("/work/a", "nightly"), pair("/work/b", "beta")]);
}

#[test]
fn what_is_written_is_what_is_read() {
    let mut store = OverrideStore::new();
    store.set(String::from("/work/a"), String::from("nightly"));
    store.set(String::from("C:\\Users\\alice\\project"), String::from("my;odd;toolchain"));
    store.set(String::from(""), String::from(""));
    store.set(String::from("/ünïcode/路径"), String::from("stable"));
    store.set(String::from("/a;b"), String::from("t"));
    store.set(String::from("/two\nlines"), String::from("line\nend"));
    store.set(String::from("/100%/%3B"), String::from("%25"));
    store.set(String::from(";"), String::from(";;;\n\n%%"));
    let read = OverrideStore::decode(&store.encode());
    assert_eq!(read, store);
    assert_eq!(read.list(), store.list());
    assert_eq!(read.encode(), store.encode());
}

#[test]
fn reading_tolerates_a_missing_line_end() {
    let store = OverrideStore::decode("/a;nightly\n/b;beta");
    assert_eq!(store.list(), vec![pair("/a", "nightly"), pair("/b", "beta")]);
}

#[test]
fn reading_passes_over_lines_without_an_entry() {
    let store = OverrideStore::decode("\n\nno entry here\n/a;nightly\n\ngarbage\n");
    assert_eq!(store.list(), vec![pair("/a", "nightly")]);
    assert_eq!(OverrideStore::decode("").len(), 0);
    assert_eq!(OverrideStore::decode("\n").len(), 0);
    assert_eq!(OverrideStore::decode("nothing").len(), 0);
}

#[test]
fn reading_splits_at_the_first_semicolon() {
    let store = OverrideStore::decode("/a;b;c\n;x\n/d;\n");
    assert_eq!(store.list(), vec![pair("/a", "b;c"), pair("", "x"), pair("/d", "")]);
}

#[test]
fn when_reading_the_later_line_counts() {
    let store = OverrideStore::decode("/a;nightly\n/b;beta\n/a;stable\n");
    assert_eq!(store.list(), vec![pair("/a", "stable"), pair("/b", "beta")]);
}

#[test]
fn an_override_for_a_directory_with_a_semicolon_is_read_back() {
    let mut store = OverrideStore::new();
    let added = override_add(&mut store, "/a;b", "my-custom-build", true, None);
    assert_eq!(added, Ok(None));
    assert_eq!(store.encode(), "/a%3Bb;my-custom-build\n");
    let read = OverrideStore::decode(&store.encode());
    assert_eq!(read.get("/a;b"), Some(String::from("my-custom-build")));
    assert_eq!(read.get("/a"), None);
    assert_eq!(read.list(), vec![pair("/a;b", "my-custom-build")]);
}

#[test]
fn an_override_for_a_directory_with_a_line_end_is_read_back() {
    let mut store = OverrideStore::new();
    let added = override_add(&mut store, "/odd\ndir", "my;custom\nbuild", true, None);
    assert_eq!(added, Ok(None));
    assert_eq!(store.encode(), "/odd%0Adir;my%3Bcustom%0Abuild\n");
    let read = OverrideStore::decode(&store.encode());
    assert_eq!(read.list(), vec![pair("/odd\ndir", "my;custom\nbuild")]);
    assert_eq!(read, store);
}

#[test]
fn a_percent_sign_is_written_as_a_code() {
    let mut store = OverrideStore::new();
    store.set(String::from("/100%"), String::from("%3B"));
    assert_eq!(store.encode(), "/100%25;%253B\n");
    assert_eq!(OverrideStore::decode(&store.encode()).list(), vec![pair("/100%", "%3B")]);
}

#[test]
fn codes_are_read_as_their_characters() {
    let store = OverrideStore::decode("/a%3Bb;x%0Ay\n/c%25;z\n");
    assert_eq!(store.list(), vec![pair("/a;b", "x\ny"), pair("/c%", "z")]);
}

#[test]
fn a_percent_sign_without_a_code_is_read_as_it_stands() {
    let store = OverrideStore::decode("/100%;50%off\n/%zz;%3b\n/%2;%\n");
    assert_eq!(
        store.list(),
        vec![pair("/100%", "50%off"), pair("/%zz", "%3b"), pair("/%2", "%")]
    );
}

#[test]
fn many_odd_entries_come_back_as_they_were() {
    let parts = ["", ";", "\n", "%", "%3B", "%0A", "%25", "a;b", "a\nb", "%;", ";%", "C:\\x"];
    let mut store = OverrideStore::new();
    for dir in parts.iter() {
        for toolchain in parts.iter() {
            store.set(format!("/{}/{}", dir, toolchain), format!("{}{}", toolchain, dir));
            store.set(String::from(*dir), String::from(*toolchain));
        }
    }
    let text = store.encode();
    let read = OverrideStore::decode(&text);
    assert_eq!(read.list(), store.list());
    assert_eq!(read.encode(), text);
    assert_eq!(text.lines().count(), store.len());
}
