use pacman_bintrans::archive::{detect_compression, parse_pkg_info, parse_pkg_info_text, Compression, PkgInfo};
use pacman_bintrans::error::Error;
use std::io::Write;

fn tar_with(files: &[(&str, &[u8])]) -> Vec<u8> {
    let mut b = tar::Builder::new(Vec::new());
    for (path, data) in files {
        let mut h = tar::Header::new_gnu();
        h.set_size(data.len() as u64);
        h.set_mode(0o644);
        h.set_entry_type(tar::EntryType::Regular);
        b.append_data(&mut h, path, *data).unwrap();
    }
    b.into_inner().unwrap()
}

fn package_fixture() -> Vec<u8> {
    let pkginfo = b"# Generated by makepkg 6.0.1\npkgname = rebuilderd\npkgbase = rebuilderd\npkgver = 0.18.1-1\npkgdesc = Independent verification of binary packages\narch = x86_64\n";
    let tar = tar_with(&[
        (".BUILDINFO", b"format = 2\npkgname = rebuilderd\n"),
        (".MTREE", &[0x1f, 0x8b, 0, 1, 2, 3]),
        (".PKGINFO", pkginfo),
        ("usr/bin/rebuilderd", &[0u8, 159, 146, 150, 7, 255]),
    ]);
    zstd::encode_all(&tar[..], 3).unwrap()
}

#[test]
fn test_parse_pkg_get_name_version() {
    let bytes = package_fixture();
    let pkginfo = parse_pkg_info(&bytes).unwrap();
    assert_eq!(
        pkginfo,
        PkgInfo {
            name: "rebuilderd".to_string(),
            version: "0.18.1-1".to_string(),
        }
    );
}

#[test]
fn compression_is_detected_by_magic() {
    assert_eq!(detect_compression(&[0x1f, 0x8b, 8]), Compression::Gzip);
    assert_eq!(detect_compression(&[0xfd, b'7', b'z', b'X', b'Z', 0, 1]), Compression::Xz);
    assert_eq!(detect_compression(&[0x28, 0xb5, 0x2f, 0xfd]), Compression::Zstd);
    assert_eq!(detect_compression(b"BZh91AY"), Compression::Bzip2);
    assert_eq!(detect_compression(b"usr/"), Compression::Uncompressed);
    assert_eq!(detect_compression(&[0x1f]), Compression::Uncompressed);
    assert_eq!(detect_compression(&[]), Compression::Uncompressed);
}

fn info_tar() -> Vec<u8> {
    tar_with(&[(".PKGINFO", b"pkgname = foo\npkgver = 1.2-3\n")])
}

#[test]
fn pkginfo_from_every_compression() {
    let tar = info_tar();
    let want = PkgInfo { name: "foo".to_string(), version: "1.2-3".to_string() };

    assert_eq!(parse_pkg_info(&tar).unwrap(), want);

    let mut gz = flate2::write::GzEncoder::new(Vec::new(), flate2::Compression::default());
    gz.write_all(&tar).unwrap();
    assert_eq!(parse_pkg_info(&gz.finish().unwrap()).unwrap(), want);

    let mut xz = xz2::write::XzEncoder::new(Vec::new(), 6);
    xz.write_all(&tar).unwrap();
    assert_eq!(parse_pkg_info(&xz.finish().unwrap()).unwrap(), want);

    let mut bz = bzip2::write::BzEncoder::new(Vec::new(), bzip2::Compression::default());
    bz.write_all(&tar).unwrap();
    assert_eq!(parse_pkg_info(&bz.finish().unwrap()).unwrap(), want);
}

#[test]
fn pkginfo_missing_is_malformed() {
    let tar = tar_with(&[(".BUILDINFO", b"pkgname = foo\npkgver = 1\n")]);
    assert!(matches!(parse_pkg_info(&tar), Err(Error::MalformedPackage)));
}

#[test]
fn pkginfo_in_subdirectory_does_not_count() {
    let tar = tar_with(&[("sub/.PKGINFO", b"pkgname = foo\npkgver = 1\n")]);
    assert!(matches!(parse_pkg_info(&tar), Err(Error::MalformedPackage)));
}

#[test]
fn broken_archive_is_malformed() {
    assert!(matches!(parse_pkg_info(&[0x28, 0xb5, 0x2f, 0xfd, 1, 2, 3]), Err(Error::MalformedPackage)));
}

#[test]
fn pkginfo_text_needs_both_fields() {
    assert!(matches!(parse_pkg_info_text("pkgname = foo\n"), Err(Error::MalformedPackage)));
    assert!(matches!(parse_pkg_info_text("pkgver = 1\n"), Err(Error::MalformedPackage)));
    assert!(matches!(parse_pkg_info_text(""), Err(Error::MalformedPackage)));
}

#[test]
fn pkginfo_text_last_line_wins() {
    let p = parse_pkg_info_text("pkgname = a\npkgver = 1\npkgname = b\npkgnamex = c\n pkgver = 9").unwrap();
    assert_eq!(p.name, "b");
    assert_eq!(p.version, "1");
}

#[test]
fn pkginfo_empty_values_are_missing() {
    assert!(matches!(parse_pkg_info_text("pkgname = \npkgver = 1\n"), Err(Error::MalformedPackage)));
    assert!(matches!(parse_pkg_info_text("pkgname = foo\npkgver = "), Err(Error::MalformedPackage)));
    assert!(matches!(parse_pkg_info_text("pkgname = foo\npkgver = 1\npkgname = \n"), Err(Error::MalformedPackage)));
}
