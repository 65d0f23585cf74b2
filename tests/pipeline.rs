use pacman_bintrans::error::Error;
use pacman_bintrans::pipeline::{Action, Event, Session, Stage, VerifyConfig};
use pacman_bintrans::rebuild::{RebuildStatus, Release};
use pacman_bintrans::signature::canonical_hash;
use pacman_bintrans::translog::LogCommand;
use std::io::Cursor;

const URL: &str = "http://x/foo-1.0-x86_64.pkg.tar.zst";

fn package() -> Vec<u8> {
    let mut b = tar::Builder::new(Vec::new());
    let data: &[u8] = b"pkgname = foo\npkgver = 1.0-1\n";
    let mut h = tar::Header::new_gnu();
    h.set_size(data.len() as u64);
    h.set_mode(0o644);
    h.set_entry_type(tar::EntryType::Regular);
    b.append_data(&mut h, ".PKGINFO", data).unwrap();
    zstd::encode_all(&b.into_inner().unwrap()[..], 3).unwrap()
}

fn signed(pkg: &[u8]) -> (String, Vec<u8>) {
    let kp = minisign::KeyPair::generate_unencrypted_keypair().unwrap();
    let sig = minisign::sign(Some(&kp.pk), &kp.sk, Cursor::new(canonical_hash(pkg)), None, None)
        .unwrap()
        .into_string()
        .into_bytes();
    (kp.pk.to_base64(), sig)
}

fn config(key: String, rebuilders: usize, required: usize) -> VerifyConfig {
    VerifyConfig {
        pubkey: key,
        transparency_url: None,
        rebuilders: (0..rebuilders).map(|i| format!("https://r{}/", i)).collect(),
        required_confirms: required,
    }
}

/// Runs a session up to the first rebuilder query (or the write).
fn through_log(cfg: VerifyConfig, pkg: &[u8], sig: &[u8]) -> (Session, Action) {
    let (mut s, a) = Session::start(URL, false, cfg);
    assert!(matches!(a, Action::DownloadPackage { ref url } if url == URL));
    let a = s.step(Event::Fetched(Ok(pkg.to_vec())));
    match &a {
        Action::FetchProof { url, limit } => {
            assert_eq!(url, &format!("{}.t", URL));
            assert_eq!(*limit, 1024);
        }
        other => panic!("unexpected {:?}", other),
    }
    let a = s.step(Event::Fetched(Ok(sig.to_vec())));
    match &a {
        Action::RunLog { command, hash, signature } => {
            assert_eq!(*command, LogCommand::Verify);
            assert_eq!(hash, &canonical_hash(pkg));
            assert_eq!(signature, &sig.to_vec());
        }
        other => panic!("unexpected {:?}", other),
    }
    let a = s.step(Event::LogExited(true));
    (s, a)
}

fn good(name: &str, version: &str) -> Release {
    Release { name: name.to_string(), version: version.to_string(), status: RebuildStatus::Good }
}

fn bad(name: &str, version: &str) -> Release {
    Release { name: name.to_string(), version: version.to_string(), status: RebuildStatus::Bad }
}

#[test]
fn happy_path_writes_exact_bytes() {
    let pkg = package();
    let (key, sig) = signed(&pkg);
    let (mut s, a) = through_log(config(key, 0, 0), &pkg, &sig);
    assert!(matches!(a, Action::WriteOutput));
    assert_eq!(s.stage(), Stage::Writing);
    assert_eq!(s.package(), &pkg[..]);
    assert!(matches!(s.step(Event::Saved(Ok(()))), Action::Finish(Ok(()))));
    assert_eq!(s.stage(), Stage::Done);
}

#[test]
fn existing_output_is_verified_in_place() {
    let pkg = package();
    let (key, _) = signed(&pkg);
    let (mut s, a) = Session::start(URL, true, config(key, 0, 0));
    assert!(matches!(a, Action::ReadExisting));
    let mut corrupt = pkg.clone();
    corrupt.push(0);
    s.step(Event::Fetched(Ok(corrupt)));
    let (_, other_sig) = signed(&pkg);
    assert!(matches!(s.step(Event::Fetched(Ok(other_sig))), Action::Finish(Err(Error::InvalidSignature))));
}

#[test]
fn log_absent_then_present_uploads_once() {
    let pkg = package();
    let (key, sig) = signed(&pkg);
    let (mut s, _) = Session::start(URL, false, config(key, 0, 0));
    s.step(Event::Fetched(Ok(pkg.clone())));
    let mut uploads = 0;
    let mut a = s.step(Event::Fetched(Ok(sig)));
    let mut exits = vec![false, true, true].into_iter();
    loop {
        match a {
            Action::RunLog { command, .. } => {
                if command == LogCommand::Upload {
                    uploads += 1;
                }
                a = s.step(Event::LogExited(exits.next().unwrap()));
            }
            _ => break,
        }
    }
    assert!(matches!(a, Action::WriteOutput));
    assert_eq!(uploads, 1);
}

#[test]
fn failed_upload_aborts() {
    let pkg = package();
    let (key, sig) = signed(&pkg);
    let (mut s, _) = Session::start(URL, false, config(key, 0, 0));
    s.step(Event::Fetched(Ok(pkg.clone())));
    s.step(Event::Fetched(Ok(sig)));
    assert!(matches!(s.step(Event::LogExited(false)), Action::RunLog { command: LogCommand::Upload, .. }));
    assert!(matches!(s.step(Event::LogExited(false)), Action::Finish(Err(Error::LogNotFound))));
    assert_eq!(s.stage(), Stage::Failed);
}

#[test]
fn failed_recheck_aborts() {
    let pkg = package();
    let (key, sig) = signed(&pkg);
    let (mut s, _) = Session::start(URL, false, config(key, 0, 0));
    s.step(Event::Fetched(Ok(pkg.clone())));
    s.step(Event::Fetched(Ok(sig)));
    s.step(Event::LogExited(false));
    assert!(matches!(s.step(Event::LogExited(true)), Action::RunLog { command: LogCommand::Verify, .. }));
    assert!(matches!(s.step(Event::LogExited(false)), Action::Finish(Err(Error::LogUnavailable))));
}

#[test]
fn tampered_package_is_rejected() {
    let pkg = package();
    let (key, sig) = signed(&pkg);
    let mut tampered = pkg.clone();
    let last = tampered.len() - 1;
    tampered[last] ^= 0x55;
    let (mut s, _) = Session::start(URL, false, config(key, 0, 0));
    s.step(Event::Fetched(Ok(tampered)));
    assert!(matches!(s.step(Event::Fetched(Ok(sig))), Action::Finish(Err(Error::InvalidSignature))));
    assert_eq!(s.stage(), Stage::Failed);
}

#[test]
fn oversized_proof_aborts() {
    let pkg = package();
    let (key, _) = signed(&pkg);
    let (mut s, _) = Session::start(URL, false, config(key, 0, 0));
    s.step(Event::Fetched(Ok(pkg)));
    let mut body = pacman_bintrans::fetch::BoundedBody::new(Some(1024));
    let err = body.push_chunk(&[b'x'; 1025]).unwrap_err();
    assert_eq!(err, Error::SizeLimitExceeded);
    assert!(matches!(s.step(Event::Fetched(Err(err))), Action::Finish(Err(Error::SizeLimitExceeded))));
}

#[test]
fn quorum_shortfall() {
    let pkg = package();
    let (key, sig) = signed(&pkg);
    let (mut s, a) = through_log(config(key, 3, 2), &pkg, &sig);
    match &a {
        Action::QueryRebuilder { index, url } => {
            assert_eq!(*index, 0);
            assert_eq!(url, "https://r0/api/v0/pkgs/list?distro=archlinux&name=foo");
        }
        other => panic!("unexpected {:?}", other),
    }
    let a = s.step(Event::RebuilderAnswered(Some(vec![good("foo", "1.0-1")])));
    assert!(matches!(a, Action::QueryRebuilder { index: 1, .. }));
    let a = s.step(Event::RebuilderAnswered(None));
    assert!(matches!(a, Action::QueryRebuilder { index: 2, .. }));
    let a = s.step(Event::RebuilderAnswered(Some(vec![bad("foo", "1.0-1")])));
    assert!(matches!(a, Action::Finish(Err(Error::QuorumShortfall { confirms: 1, required: 2 }))));
    assert_eq!(s.outcomes(), &[true, false, false]);
}

#[test]
fn quorum_met_despite_network_error() {
    let pkg = package();
    let (key, sig) = signed(&pkg);
    let (mut s, _) = through_log(config(key, 4, 2), &pkg, &sig);
    s.step(Event::RebuilderAnswered(Some(vec![good("foo", "1.0-1")])));
    s.step(Event::RebuilderAnswered(None));
    s.step(Event::RebuilderAnswered(Some(vec![bad("foo", "0.9-1"), good("foo", "1.0-1")])));
    let a = s.step(Event::RebuilderAnswered(Some(vec![bad("foo", "1.0-1")])));
    assert!(matches!(a, Action::WriteOutput));
    assert_eq!(s.confirms(), 2);
    assert_eq!(s.outcomes(), &[true, false, true, false]);
}

#[test]
fn quorum_fails_with_two_bad() {
    let pkg = package();
    let (key, sig) = signed(&pkg);
    let (mut s, _) = through_log(config(key, 3, 2), &pkg, &sig);
    s.step(Event::RebuilderAnswered(Some(vec![good("foo", "1.0-1")])));
    s.step(Event::RebuilderAnswered(Some(vec![bad("foo", "1.0-1")])));
    let a = s.step(Event::RebuilderAnswered(Some(vec![good("bar", "1.0-1"), good("foo", "1.0-2")])));
    assert!(matches!(a, Action::Finish(Err(Error::QuorumShortfall { confirms: 1, required: 2 }))));
}

#[test]
fn required_confirms_without_rebuilders_fails_closed() {
    let pkg = package();
    let (key, sig) = signed(&pkg);
    let (_, a) = through_log(config(key, 0, 1), &pkg, &sig);
    assert!(matches!(a, Action::Finish(Err(Error::QuorumShortfall { confirms: 0, required: 1 }))));
}

#[test]
fn rebuilders_with_zero_required_still_pass() {
    let pkg = package();
    let (key, sig) = signed(&pkg);
    let (mut s, a) = through_log(config(key, 1, 0), &pkg, &sig);
    assert!(matches!(a, Action::QueryRebuilder { .. }));
    assert!(matches!(s.step(Event::RebuilderAnswered(None)), Action::WriteOutput));
}

#[test]
fn quorum_needs_readable_pkginfo() {
    let pkg = b"not an archive".to_vec();
    let (key, sig) = signed(&pkg);
    let (_, a) = through_log(config(key, 1, 1), &pkg, &sig);
    assert!(matches!(a, Action::Finish(Err(Error::MalformedPackage))));
}

#[test]
fn non_package_is_plain_download() {
    let (mut s, a) = Session::start("http://x/core.db", false, config(String::new(), 2, 2));
    assert!(matches!(a, Action::DownloadToFile { ref url } if url == "http://x/core.db"));
    assert_eq!(s.stage(), Stage::Plain);
    assert!(matches!(s.step(Event::Saved(Ok(()))), Action::Finish(Ok(()))));
}

#[test]
fn failed_download_aborts() {
    let (mut s, _) = Session::start(URL, false, config(String::new(), 0, 0));
    assert!(matches!(s.step(Event::Fetched(Err(Error::HttpStatus))), Action::Finish(Err(Error::HttpStatus))));
}

#[test]
fn transparency_base_is_used_for_proof() {
    let mut cfg = config(String::new(), 0, 0);
    cfg.transparency_url = Some("https://t/sigs/".to_string());
    let (mut s, _) = Session::start(URL, false, cfg);
    match s.step(Event::Fetched(Ok(vec![1, 2, 3]))) {
        Action::FetchProof { url, .. } => assert_eq!(url, "https://t/sigs/foo-1.0-x86_64.pkg.tar.zst.t"),
        other => panic!("unexpected {:?}", other),
    }
}
