use pacman_bintrans::error::Error;
use pacman_bintrans::repo::{db_parse_pkgs, sig_file_name, ArchRepo, NewPkg, Pkg};
use std::io::Write;

fn repo() -> ArchRepo {
    ArchRepo::new(
        "https://mirror.example/$repo/os/$arch".to_string(),
        "core".to_string(),
        "x86_64".to_string(),
    )
}

const DESC: &str = "%FILENAME%\nfoo-1.0-1-x86_64.pkg.tar.zst\n\n%NAME%\nfoo\n\n%BASE%\nfoo-base\n\n%VERSION%\n1.0-1\n\n%DESC%\nA package\n\n%SHA256SUM%\nabc123\n\n%ARCH%\nx86_64\n\n%PACKAGER%\nSomeone <someone@example.org>\n\n%DEPENDS%\nglibc\nzlib\n";

fn foo() -> Pkg {
    Pkg {
        name: "foo".to_string(),
        base: "foo-base".to_string(),
        filename: "foo-1.0-1-x86_64.pkg.tar.zst".to_string(),
        version: "1.0-1".to_string(),
        sha256sum: "abc123".to_string(),
        architecture: "x86_64".to_string(),
        packager: "Someone <someone@example.org>".to_string(),
    }
}

#[test]
fn repo_urls_fill_the_template() {
    let r = repo();
    assert_eq!(r.db_url(), "https://mirror.example/core/os/x86_64/core.db");
    assert_eq!(r.pkg_url(&foo()), "https://mirror.example/core/os/x86_64/foo-1.0-1-x86_64.pkg.tar.zst");
}

#[test]
fn repo_template_replaces_every_occurrence() {
    let r = ArchRepo::new("$arch/$repo/$repo".to_string(), "x".to_string(), "a".to_string());
    assert_eq!(r.db_url(), "a/x/x/x.db");
}

#[test]
fn desc_record_reads_first_values() {
    let p = NewPkg::from_desc(DESC).try_into().unwrap();
    assert_eq!(p, foo());
}

#[test]
fn desc_without_trailing_newline() {
    let text = DESC.trim_end_matches('\n');
    assert_eq!(NewPkg::from_desc(text).try_into().unwrap(), foo());
}

#[test]
fn desc_missing_field_is_malformed() {
    let text = DESC.replace("%PACKAGER%", "%OTHER%");
    assert!(matches!(NewPkg::from_desc(&text).try_into(), Err(Error::MalformedPackage)));
}

fn gz_db(entries: &[(&str, &str)]) -> Vec<u8> {
    let mut b = tar::Builder::new(Vec::new());
    let mut dir = tar::Header::new_gnu();
    dir.set_size(0);
    dir.set_mode(0o755);
    dir.set_entry_type(tar::EntryType::Directory);
    b.append_data(&mut dir, "foo-1.0-1/", &[][..]).unwrap();
    for (path, text) in entries {
        let mut h = tar::Header::new_gnu();
        h.set_size(text.len() as u64);
        h.set_mode(0o644);
        h.set_entry_type(tar::EntryType::Regular);
        b.append_data(&mut h, path, text.as_bytes()).unwrap();
    }
    let tar = b.into_inner().unwrap();
    let mut gz = flate2::write::GzEncoder::new(Vec::new(), flate2::Compression::default());
    gz.write_all(&tar).unwrap();
    gz.finish().unwrap()
}

#[test]
fn database_lists_each_record() {
    let second = DESC.replace("\nfoo\n", "\nbar\n");
    let db = gz_db(&[("foo-1.0-1/desc", DESC), ("bar-1.0-1/desc", &second)]);
    let pkgs = db_parse_pkgs(&db).unwrap();
    assert_eq!(pkgs.len(), 2);
    assert_eq!(pkgs[0], foo());
    assert_eq!(pkgs[1].name, "bar");
}

#[test]
fn database_with_incomplete_record_is_malformed() {
    let db = gz_db(&[("foo-1.0-1/desc", "%NAME%\nfoo\n")]);
    assert!(matches!(db_parse_pkgs(&db), Err(Error::MalformedPackage)));
    assert!(matches!(db_parse_pkgs(b"\x1f\x8bjunk"), Err(Error::MalformedPackage)));
}

#[test]
fn signature_file_names() {
    assert_eq!(sig_file_name("foo.pkg.tar.zst").unwrap(), "foo.pkg.tar.zst.t");
    assert!(matches!(sig_file_name(""), Err(Error::MalformedPackage)));
    assert!(matches!(sig_file_name("a/b"), Err(Error::MalformedPackage)));
    assert!(matches!(sig_file_name(".hidden"), Err(Error::MalformedPackage)));
}
