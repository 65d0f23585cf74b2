//! Package archives: detecting their compression, listing their members,
//! and reading the package name and version from `.PKGINFO`.

use vstd::prelude::*;
use crate::error::Error;
use crate::text::{chars_of, same_chars, slice_chars, split_chars, split_on, starts_with_chars, string_of, views};

verus! {

/// The compression of an archive, as its first bytes tell.
#[derive(Debug, Clone, Copy, PartialEq, Eq, Structural)]
pub enum Compression {
    Gzip,
    Xz,
    Zstd,
    Bzip2,
    /// A plain tar archive.
    Uncompressed,
}

/// Whether `b` begins with `m`.
pub open spec fn has_magic(b: Seq<u8>, m: Seq<u8>) -> bool {
    m.len() <= b.len() && b.subrange(0, m.len() as int) == m
}

pub open spec fn gzip_magic() -> Seq<u8> {
    seq![0x1fu8, 0x8bu8]
}

pub open spec fn xz_magic() -> Seq<u8> {
    seq![0xfdu8, 0x37u8, 0x7au8, 0x58u8, 0x5au8, 0x00u8]
}

pub open spec fn zstd_magic() -> Seq<u8> {
    seq![0x28u8, 0xb5u8, 0x2fu8, 0xfdu8]
}

pub open spec fn bzip2_magic() -> Seq<u8> {
    seq![0x42u8, 0x5au8, 0x68u8]
}

/// The compression whose magic number starts `b`; anything else is read
/// as a plain tar archive.
pub open spec fn compression_of(b: Seq<u8>) -> Compression {
    if has_magic(b, gzip_magic()) {
        Compression::Gzip
    } else if has_magic(b, xz_magic()) {
        Compression::Xz
    } else if has_magic(b, zstd_magic()) {
        Compression::Zstd
    } else if has_magic(b, bzip2_magic()) {
        Compression::Bzip2
    } else {
        Compression::Uncompressed
    }
}

fn starts_with_bytes(b: &[u8], m: &Vec<u8>) -> (r: bool)
    ensures
        r == has_magic(b@, m@),
{
    if m.len() > b.len() {
        return false;
    }
    let mut i: usize = 0;
    while i < m.len()
        invariant
            m@.len() <= b@.len(),
            0 <= i <= m@.len(),
            forall|j: int| 0 <= j < i ==> b@[j] == m@[j],
        decreases m.len() - i,
    {
        if b[i] != m[i] {
            assert(b@.subrange(0, m@.len() as int)[i as int] != m@[i as int]);
            return false;
        }
        i += 1;
    }
    assert(b@.subrange(0, m@.len() as int) =~= m@);
    true
}

/// Detects the compression of an archive from its magic number.
pub fn detect_compression(bytes: &[u8]) -> (r: Compression)
    ensures
        r == compression_of(bytes@),
{
    let gz = vec![0x1fu8, 0x8bu8];
    assert(gz@ =~= gzip_magic());
    let xz = vec![0xfdu8, 0x37u8, 0x7au8, 0x58u8, 0x5au8, 0x00u8];
    assert(xz@ =~= xz_magic());
    let zst = vec![0x28u8, 0xb5u8, 0x2fu8, 0xfdu8];
    assert(zst@ =~= zstd_magic());
    let bz = vec![0x42u8, 0x5au8, 0x68u8];
    assert(bz@ =~= bzip2_magic());
    if starts_with_bytes(bytes, &gz) {
        Compression::Gzip
    } else if starts_with_bytes(bytes, &xz) {
        Compression::Xz
    } else if starts_with_bytes(bytes, &zst) {
        Compression::Zstd
    } else if starts_with_bytes(bytes, &bz) {
        Compression::Bzip2
    } else {
        Compression::Uncompressed
    }
}

/// The gzip decompression of `data`, or `None` when it is not valid gzip.
pub uninterp spec fn gzip_decoded(data: Seq<u8>) -> Option<Seq<u8>>;

/// The xz decompression of `data`, or `None` when it is not valid xz.
pub uninterp spec fn xz_decoded(data: Seq<u8>) -> Option<Seq<u8>>;

/// The zstd decompression of `data`, or `None` when it is not valid zstd.
pub uninterp spec fn zstd_decoded(data: Seq<u8>) -> Option<Seq<u8>>;

/// The bzip2 decompression of `data`, or `None` when it is not valid bzip2.
pub uninterp spec fn bzip2_decoded(data: Seq<u8>) -> Option<Seq<u8>>;

/// Relies on `flate2::read::GzDecoder`: the bytes of the gzip stream.
#[verifier::external_body]
fn gunzip(data: &[u8]) -> (r: Option<Vec<u8>>)
    ensures
        match r {
            Some(v) => gzip_decoded(data@) == Some(v@),
            None => gzip_decoded(data@) is None,
        },
{
    let mut out = Vec::new();
    std::io::Read::read_to_end(&mut flate2::read::GzDecoder::new(data), &mut out).ok().map(|_| out)
}

/// Relies on `xz2::read::XzDecoder`: the bytes of the xz stream.
#[verifier::external_body]
fn unxz(data: &[u8]) -> (r: Option<Vec<u8>>)
    ensures
        match r {
            Some(v) => xz_decoded(data@) == Some(v@),
            None => xz_decoded(data@) is None,
        },
{
    let mut out = Vec::new();
    std::io::Read::read_to_end(&mut xz2::read::XzDecoder::new(data), &mut out).ok().map(|_| out)
}

/// Relies on `zstd::stream::decode_all`: the bytes of the zstd stream.
#[verifier::external_body]
fn unzstd(data: &[u8]) -> (r: Option<Vec<u8>>)
    ensures
        match r {
            Some(v) => zstd_decoded(data@) == Some(v@),
            None => zstd_decoded(data@) is None,
        },
{
    zstd::stream::decode_all(data).ok()
}

/// Relies on `bzip2::read::BzDecoder`: the bytes of the bzip2 stream.
#[verifier::external_body]
fn bunzip2(data: &[u8]) -> (r: Option<Vec<u8>>)
    ensures
        match r {
            Some(v) => bzip2_decoded(data@) == Some(v@),
            None => bzip2_decoded(data@) is None,
        },
{
    let mut out = Vec::new();
    std::io::Read::read_to_end(&mut bzip2::read::BzDecoder::new(data), &mut out).ok().map(|_| out)
}

/// The tar archive inside `data`, compressed as `c` says.
pub open spec fn decompressed(c: Compression, data: Seq<u8>) -> Option<Seq<u8>> {
    match c {
        Compression::Gzip => gzip_decoded(data),
        Compression::Xz => xz_decoded(data),
        Compression::Zstd => zstd_decoded(data),
        Compression::Bzip2 => bzip2_decoded(data),
        Compression::Uncompressed => Some(data),
    }
}

/// Decompresses `data` as `c` says; `None` when the data is not valid.
pub fn decompress(c: Compression, data: &[u8]) -> (r: Option<Vec<u8>>)
    ensures
        match r {
            Some(v) => decompressed(c, data@) == Some(v@),
            None => decompressed(c, data@) is None,
        },
{
    match c {
        Compression::Gzip => gunzip(data),
        Compression::Xz => unxz(data),
        Compression::Zstd => unzstd(data),
        Compression::Bzip2 => bunzip2(data),
        Compression::Uncompressed => {
            let mut v: Vec<u8> = Vec::new();
            let mut i: usize = 0;
            while i < data.len()
                invariant
                    0 <= i <= data@.len(),
                    v@ == data@.subrange(0, i as int),
                decreases data.len() - i,
            {
                v.push(data[i]);
                i += 1;
                assert(v@ =~= data@.subrange(0, i as int));
            }
            assert(data@.subrange(0, data@.len() as int) =~= data@);
            Some(v)
        },
    }
}

/// One member of a tar archive: whether it is a regular file, its path,
/// and its contents when they are UTF-8 text.
pub struct TarMember {
    pub regular: bool,
    pub path: String,
    pub text: Option<String>,
}

/// A tar member as plain values.
pub type MemberView = (bool, Seq<char>, Option<Seq<char>>);

impl TarMember {
    pub open spec fn view_tuple(&self) -> MemberView {
        (self.regular, self.path@, match self.text {
            Some(t) => Some(t@),
            None => None,
        })
    }
}

pub open spec fn members_view(v: Seq<TarMember>) -> Seq<MemberView> {
    v.map_values(|m: TarMember| m.view_tuple())
}

/// The members of the tar archive `data`, in archive order, or `None` when
/// it cannot be read.
pub uninterp spec fn tar_listing(data: Seq<u8>) -> Option<Seq<MemberView>>;

/// Relies on `tar::Archive::entries`: each entry's type, its path (lossily
/// as text) and its contents read as a UTF-8 string, in archive order.
#[verifier::external_body]
fn tar_members(data: &[u8]) -> (r: Option<Vec<TarMember>>)
    ensures
        match r {
            Some(v) => tar_listing(data@) == Some(members_view(v@)),
            None => tar_listing(data@) is None,
        },
{
    let mut archive = tar::Archive::new(data);
    let mut out = Vec::new();
    for entry in archive.entries().ok()? {
        let mut entry = entry.ok()?;
        let regular = entry.header().entry_type().is_file();
        let path = entry.path().ok()?.to_string_lossy().into_owned();
        let text = std::io::read_to_string(&mut entry).ok();
        out.push(TarMember { regular, path, text });
    }
    Some(out)
}

/// The members of a possibly compressed archive.
pub open spec fn archive_members(data: Seq<u8>) -> Option<Seq<MemberView>> {
    match decompressed(compression_of(data), data) {
        Some(t) => tar_listing(t),
        None => None,
    }
}

/// Lists the members of a possibly compressed archive; `MalformedPackage`
/// when it cannot be decompressed or read.
pub fn read_archive(data: &[u8]) -> (r: Result<Vec<TarMember>, Error>)
    ensures
        match archive_members(data@) {
            Some(ms) => r matches Ok(v) && members_view(v@) == ms,
            None => r == Err::<Vec<TarMember>, Error>(Error::MalformedPackage),
        },
{
    let c = detect_compression(data);
    let tar = match decompress(c, data) {
        Some(t) => t,
        None => return Err(Error::MalformedPackage),
    };
    match tar_members(tar.as_slice()) {
        Some(v) => Ok(v),
        None => Err(Error::MalformedPackage),
    }
}

/// The index of the first regular member at or after `i` whose path is
/// `name`, or the number of members.
pub open spec fn find_member(ms: Seq<MemberView>, name: Seq<char>, i: int) -> int
    decreases ms.len() - i,
{
    if i >= ms.len() {
        ms.len() as int
    } else if ms[i].0 && ms[i].1 == name {
        i
    } else {
        find_member(ms, name, i + 1)
    }
}

/// The text of the package's `.PKGINFO`: the first regular member of that
/// path, which must be UTF-8.
pub open spec fn pkginfo_text_spec(pkg: Seq<u8>) -> Option<Seq<char>> {
    match archive_members(pkg) {
        None => None,
        Some(ms) => {
            let i = find_member(ms, ".PKGINFO"@, 0);
            if i < ms.len() {
                ms[i].2
            } else {
                None
            }
        },
    }
}

/// Reads the `.PKGINFO` of a package archive; `MalformedPackage` when the
/// archive is unreadable or the file is missing or not text.
pub fn extract_dot_pkginfo_from_archive(bytes: &[u8]) -> (r: Result<String, Error>)
    ensures
        match pkginfo_text_spec(bytes@) {
            Some(t) => r matches Ok(s) && s@ == t,
            None => r == Err::<String, Error>(Error::MalformedPackage),
        },
{
    let members = match read_archive(bytes) {
        Ok(v) => v,
        Err(e) => return Err(e),
    };
    let ghost ms = members_view(members@);
    assert(archive_members(bytes@) == Some(ms));
    let want = chars_of(".PKGINFO");
    let mut i: usize = 0;
    while i < members.len()
        invariant
            0 <= i <= members@.len(),
            ms == members_view(members@),
            archive_members(bytes@) == Some(ms),
            want@ == ".PKGINFO"@,
            find_member(ms, ".PKGINFO"@, i as int) == find_member(ms, ".PKGINFO"@, 0),
        decreases members.len() - i,
    {
        let m = &members[i];
        assert(ms[i as int] == m.view_tuple());
        if m.regular && same_chars(&chars_of(m.path.as_str()), &want) {
            assert(ms[i as int].0 && ms[i as int].1 == ".PKGINFO"@);
            assert(find_member(ms, ".PKGINFO"@, i as int) == i as int);
            return match &m.text {
                Some(t) => {
                    assert(ms[i as int].2 == Some(t@));
                    Ok(string_of(chars_of(t.as_str()).as_slice()))
                },
                None => Err(Error::MalformedPackage),
            };
        }
        i += 1;
    }
    Err(Error::MalformedPackage)
}

/// The value of the last line in `lines` that starts with `prefix`.
pub open spec fn field_value(lines: Seq<Seq<char>>, prefix: Seq<char>) -> Option<Seq<char>>
    decreases lines.len(),
{
    if lines.len() == 0 {
        None
    } else {
        let l = lines.last();
        if prefix.len() <= l.len() && l.subrange(0, prefix.len() as int) == prefix {
            Some(l.subrange(prefix.len() as int, l.len() as int))
        } else {
            field_value(lines.drop_last(), prefix)
        }
    }
}

/// Computes `field_value` over split lines.
pub fn last_field(lines: &Vec<Vec<char>>, prefix: &Vec<char>) -> (r: Option<Vec<char>>)
    ensures
        match r {
            Some(v) => field_value(views(lines@), prefix@) == Some(v@),
            None => field_value(views(lines@), prefix@) is None,
        },
{
    let mut val: Option<Vec<char>> = None;
    let mut i: usize = 0;
    let ghost all = views(lines@);
    assert(all.subrange(0, 0) =~= Seq::<Seq<char>>::empty());
    while i < lines.len()
        invariant
            0 <= i <= lines@.len(),
            all == views(lines@),
            match val {
                Some(v) => field_value(all.subrange(0, i as int), prefix@) == Some(v@),
                None => field_value(all.subrange(0, i as int), prefix@) is None,
            },
        decreases lines.len() - i,
    {
        assert(all.subrange(0, i + 1).drop_last() =~= all.subrange(0, i as int));
        assert(all.subrange(0, i + 1).last() == lines@[i as int]@);
        let l = &lines[i];
        if starts_with_chars(l, prefix) {
            val = Some(slice_chars(l, prefix.len(), l.len()));
        }
        i += 1;
    }
    assert(all.subrange(0, lines@.len() as int) =~= all);
    val
}

/// The name and version of a package.
#[derive(Debug, Clone)]
pub struct PkgInfo {
    pub name: String,
    pub version: String,
}

impl PartialEq for PkgInfo {
    fn eq(&self, other: &PkgInfo) -> (r: bool) {
        self.name == other.name && self.version == other.version
    }
}

impl vstd::std_specs::cmp::PartialEqSpecImpl for PkgInfo {
    open spec fn obeys_eq_spec() -> bool {
        true
    }

    open spec fn eq_spec(&self, other: &PkgInfo) -> bool {
        self.name@ == other.name@ && self.version@ == other.version@
    }
}

/// Name and version read from the text of a `.PKGINFO`: the last
/// `pkgname = ` and `pkgver = ` lines; both must be present, and an empty
/// value counts as missing.
pub open spec fn pkginfo_of_text(text: Seq<char>) -> Option<(Seq<char>, Seq<char>)> {
    let lines = split_on(text, '\n');
    match (field_value(lines, "pkgname = "@), field_value(lines, "pkgver = "@)) {
        (Some(n), Some(v)) => if n.len() > 0 && v.len() > 0 {
            Some((n, v))
        } else {
            None
        },
        _ => None,
    }
}

/// Reads name and version from the text of a `.PKGINFO`;
/// `MalformedPackage` when either is missing or empty.
pub fn parse_pkg_info_text(text: &str) -> (r: Result<PkgInfo, Error>)
    ensures
        match pkginfo_of_text(text@) {
            Some((n, v)) => r matches Ok(p) && p.name@ == n && p.version@ == v,
            None => r == Err::<PkgInfo, Error>(Error::MalformedPackage),
        },
{
    let cs = chars_of(text);
    let lines = split_chars(&cs, '\n');
    let name = last_field(&lines, &chars_of("pkgname = "));
    let version = last_field(&lines, &chars_of("pkgver = "));
    match (name, version) {
        (Some(n), Some(v)) if n.len() > 0 && v.len() > 0 => Ok(
            PkgInfo { name: string_of(n.as_slice()), version: string_of(v.as_slice()) },
        ),
        _ => Err(Error::MalformedPackage),
    }
}

/// The name and version that the `.PKGINFO` of package archive `pkg` gives.
pub open spec fn pkginfo_of_package(pkg: Seq<u8>) -> Option<(Seq<char>, Seq<char>)> {
    match pkginfo_text_spec(pkg) {
        Some(t) => pkginfo_of_text(t),
        None => None,
    }
}

/// The name and version of the package archive `pkg`, from its
/// `.PKGINFO`; `MalformedPackage` when that cannot be read or lacks either.
pub fn parse_pkg_info(pkg: &[u8]) -> (r: Result<PkgInfo, Error>)
    ensures
        match pkginfo_text_spec(pkg@) {
            Some(t) => match pkginfo_of_text(t) {
                Some((n, v)) => r matches Ok(p) && p.name@ == n && p.version@ == v,
                None => r == Err::<PkgInfo, Error>(Error::MalformedPackage),
            },
            None => r == Err::<PkgInfo, Error>(Error::MalformedPackage),
        },
{
    let content = extract_dot_pkginfo_from_archive(pkg)?;
    parse_pkg_info_text(content.as_str())
}

} // verus!
