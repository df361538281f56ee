use rustup_core::errors::Error;
use rustup_core::selfcheck::{
    check_old_toolchain_names, file_stem, has_old_name, run, Listing, ToolchainDir,
};

fn dir(name: &str) -> ToolchainDir {
    ToolchainDir {
        path: format!("/home/alice/.multirust/toolchains/{}", name),
        file_name: String::from(name),
        is_dir: true,
    }
}

fn file(name: &str) -> ToolchainDir {
    ToolchainDir {
        path: format!("/home/alice/.multirust/toolchains/{}", name),
        file_name: String::from(name),
        is_dir: false,
    }
}

fn listed(names: &[&str]) -> Listing {
    Ok(names.iter().map(|name| Ok(dir(name))).collect())
}

#[test]
fn stem_of_plain_names() {
    assert_eq!(file_stem("nightly"), Some(String::from("nightly")));
    assert_eq!(file_stem("archive.tar"), Some(String::from("archive")));
    assert_eq!(file_stem("archive.tar.gz"), Some(String::from("archive.tar")));
    assert_eq!(file_stem("trailing."), Some(String::from("trailing")));
    assert_eq!(file_stem("a..b"), Some(String::from("a.")));
}

#[test]
fn stem_of_hidden_names() {
    assert_eq!(file_stem(".profile"), Some(String::from(".profile")));
    assert_eq!(file_stem(".profile.bak"), Some(String::from(".profile")));
    assert_eq!(file_stem("..."), Some(String::from("..")));
    assert_eq!(file_stem("..a"), Some(String::from(".")));
}

#[test]
fn no_stem_without_a_file_name() {
    assert_eq!(file_stem(""), None);
    assert_eq!(file_stem("."), None);
    assert_eq!(file_stem(".."), None);
}

#[test]
fn stem_agrees_with_std() {
    let names = [
        "nightly", "a.b", "a.b.c", ".a", ".a.b", "a.", "a..", "..a", "...", "x", "1.8.0-x86_64",
        "nightly-x86_64-unknown-linux-gnu", "", ".", "..",
    ];
    for name in names.iter() {
        let expected = std::path::Path::new(name)
            .file_stem()
            .map(|s| s.to_string_lossy().into_owned());
        assert_eq!(file_stem(name), expected, "for {:?}", name);
    }
}

#[test]
fn old_names() {
    assert!(has_old_name("nightly"));
    assert!(has_old_name("beta"));
    assert!(has_old_name("stable-x86_64"));
    assert!(has_old_name("nightly-2016-03-31"));
    assert!(has_old_name("nightly.bak"));
    assert!(!has_old_name("nightly-x86_64-unknown-linux-gnu"));
    assert!(!has_old_name("my-custom-build"));
    assert!(!has_old_name(""));
    assert!(!has_old_name(".."));
}

#[test]
fn a_version_loses_its_last_number_to_the_stem() {
    assert_eq!(file_stem("1.8.0"), Some(String::from("1.8")));
    assert!(!has_old_name("1.8.0"));
    assert!(!has_old_name("1.8.0-x86_64-unknown-linux-gnu"));
}

#[test]
fn scan_reports_only_the_legacy_directory() {
    let listing = listed(&["nightly", "nightly-x86_64-unknown-linux-gnu", "my-custom-build"]);
    let before = listing.clone();
    let notices = run(&listing);
    assert_eq!(
        notices,
        Ok(vec![(
            String::from(
                "the toolchain directory at /home/alice/.multirust/toolchains/nightly uses an old naming scheme"
            ),
            String::from("delete it"),
        )])
    );
    assert_eq!(listing, before);
}

#[test]
fn scan_of_an_empty_directory() {
    assert_eq!(run(&Ok(Vec::new())), Ok(Vec::<(String, String)>::new()));
    assert_eq!(check_old_toolchain_names(&Vec::new()), Vec::<(String, String)>::new());
}

#[test]
fn scan_keeps_the_order_of_the_listing() {
    let dirs = vec![dir("stable"), dir("custom"), dir("beta"), dir("nightly"), dir("beta")];
    let notices = check_old_toolchain_names(&dirs);
    let problems: Vec<String> = notices.iter().map(|n| n.0.clone()).collect();
    assert_eq!(
        problems,
        vec![
            String::from("the toolchain directory at /home/alice/.multirust/toolchains/stable uses an old naming scheme"),
            String::from("the toolchain directory at /home/alice/.multirust/toolchains/beta uses an old naming scheme"),
            String::from("the toolchain directory at /home/alice/.multirust/toolchains/nightly uses an old naming scheme"),
            String::from("the toolchain directory at /home/alice/.multirust/toolchains/beta uses an old naming scheme"),
        ]
    );
    for notice in notices.iter() {
        assert_eq!(notice.1, "delete it");
    }
}

#[test]
fn scan_passes_over_what_it_cannot_read() {
    let listing = listed(&["", "..", "???", "nightly-", "stäble"]);
    assert_eq!(run(&listing), Ok(Vec::<(String, String)>::new()));
}

#[test]
fn run_and_the_single_check_agree() {
    let dirs = vec![dir("nightly"), dir("stable-msvc"), dir("x")];
    let listing = listed(&["nightly", "stable-msvc", "x"]);
    assert_eq!(run(&listing), Ok(check_old_toolchain_names(&dirs)));
    assert_eq!(run(&listing).unwrap().len(), 2);
}

#[test]
fn a_directory_that_cannot_be_listed_fails_the_scan() {
    let listing: Listing = Err(String::from("could not read directory 'toolchains'"));
    let failed = run(&listing);
    assert_eq!(failed, Err(Error::Io(String::from("could not read directory 'toolchains'"))));
    assert_eq!(failed.unwrap_err().message(), "could not read directory 'toolchains'");
}

#[test]
fn a_child_that_cannot_be_read_fails_the_scan() {
    let listing: Listing = Ok(vec![
        Ok(dir("nightly")),
        Err(String::from("permission denied")),
        Ok(dir("beta")),
        Err(String::from("stale handle")),
    ]);
    assert_eq!(run(&listing), Err(Error::Io(String::from("permission denied"))));
    let listing: Listing = Ok(vec![Err(String::from("first")), Ok(dir("nightly"))]);
    assert_eq!(run(&listing), Err(Error::Io(String::from("first"))));
    let listing: Listing = Ok(vec![Ok(dir("custom")), Ok(dir("nightly")), Err(String::from("last"))]);
    assert_eq!(run(&listing), Err(Error::Io(String::from("last"))));
}

#[test]
fn a_file_with_an_old_name_is_no_toolchain() {
    let listing: Listing = Ok(vec![Ok(file("stable"))]);
    assert_eq!(run(&listing), Ok(Vec::<(String, String)>::new()));
    assert_eq!(check_old_toolchain_names(&vec![file("stable")]), Vec::<(String, String)>::new());
}

#[test]
fn files_among_directories_are_passed_over() {
    let children = vec![file("nightly"), dir("nightly"), file("beta"), dir("custom"), file("x")];
    let notices = check_old_toolchain_names(&children);
    assert_eq!(
        notices,
        vec![(
            String::from(
                "the toolchain directory at /home/alice/.multirust/toolchains/nightly uses an old naming scheme"
            ),
            String::from("delete it"),
        )]
    );
    let listing: Listing = Ok(children.into_iter().map(Ok).collect());
    assert_eq!(run(&listing), Ok(notices));
}
