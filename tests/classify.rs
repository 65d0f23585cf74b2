use pacman_bintrans::classify::needs_transparency_proof;

#[test]
fn classifier_accepts_zstd_package() {
    assert!(needs_transparency_proof("http://x/foo-1.0-x86_64.pkg.tar.zst"));
}

#[test]
fn classifier_accepts_xz_package() {
    assert!(needs_transparency_proof("http://x/foo-1.0-x86_64.pkg.tar.xz"));
}

#[test]
fn classifier_accepts_uncompressed_package() {
    assert!(needs_transparency_proof("http://x/foo-1.0-x86_64.pkg.tar"));
}

#[test]
fn classifier_rejects_database() {
    assert!(!needs_transparency_proof("http://x/core.db"));
}

#[test]
fn classifier_rejects_archive_without_pkg() {
    assert!(!needs_transparency_proof("http://x/foo.tar.zst"));
}

#[test]
fn classifier_rejects_signature_sidecar() {
    assert!(!needs_transparency_proof("http://x/foo-1.0-x86_64.pkg.tar.zst.sig"));
    assert!(!needs_transparency_proof("http://x/foo-1.0-x86_64.pkg.tar.zst.t"));
}

#[test]
fn classifier_edge_cases() {
    assert!(!needs_transparency_proof(""));
    assert!(!needs_transparency_proof("tar"));
    assert!(needs_transparency_proof("pkg.tar"));
    assert!(!needs_transparency_proof("x.pkg.tar.tar"));
    assert!(needs_transparency_proof("x.pkg.tar.gz"));
}
