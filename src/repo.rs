//! The publishing side: repository URLs, the package records of a
//! repository database, and where a signature file is placed.

use vstd::prelude::*;
use crate::archive::{members_view, read_archive, archive_members, MemberView};
use crate::error::Error;
use crate::text::{append_chars, chars_of, slice_chars, split_chars, split_on, string_of, views};
use crate::translog::string_views;

verus! {

/// `s` with every occurrence of `p` replaced by `r`, scanning from the left
/// and not re-reading a replacement.
pub open spec fn replace_spec(s: Seq<char>, p: Seq<char>, r: Seq<char>) -> Seq<char>
    decreases s.len(),
{
    if s.len() == 0 {
        Seq::<char>::empty()
    } else if 0 < p.len() <= s.len() && s.subrange(0, p.len() as int) == p {
        r + replace_spec(s.subrange(p.len() as int, s.len() as int), p, r)
    } else {
        seq![s[0]] + replace_spec(s.subrange(1, s.len() as int), p, r)
    }
}

fn matches_at(s: &Vec<char>, i: usize, p: &Vec<char>) -> (r: bool)
    requires
        i <= s@.len(),
    ensures
        r == (p@.len() <= s@.len() - i && s@.subrange(i as int, i + p@.len()) == p@),
{
    if p.len() > s.len() - i {
        return false;
    }
    let n = s.len();
    let mut k: usize = 0;
    while k < p.len()
        invariant
            n == s@.len(),
            i <= s@.len(),
            p@.len() <= s@.len() - i,
            0 <= k <= p@.len(),
            forall|j: int| 0 <= j < k ==> s@[i + j] == p@[j],
        decreases p.len() - k,
    {
        if s[i + k] != p[k] {
            assert(s@.subrange(i as int, i + p@.len())[k as int] != p@[k as int]);
            return false;
        }
        k += 1;
    }
    assert(s@.subrange(i as int, i + p@.len()) =~= p@);
    true
}

/// Replaces every `p` in `s` by `r`, as `replace_spec` says.
pub fn replace_chars(s: &Vec<char>, p: &Vec<char>, r: &Vec<char>) -> (out: Vec<char>)
    ensures
        out@ == replace_spec(s@, p@, r@),
{
    let mut out: Vec<char> = Vec::new();
    let mut i: usize = 0;
    assert(s@.subrange(0, s@.len() as int) =~= s@);
    assert(out@ + replace_spec(s@, p@, r@) =~= replace_spec(s@, p@, r@));
    while i < s.len()
        invariant
            0 <= i <= s@.len(),
            out@ + replace_spec(s@.subrange(i as int, s@.len() as int), p@, r@) == replace_spec(s@, p@, r@),
        decreases s.len() - i,
    {
        let ghost rest = s@.subrange(i as int, s@.len() as int);
        if p.len() > 0 && matches_at(s, i, p) {
            assert(rest.subrange(0, p@.len() as int) =~= s@.subrange(i as int, i + p@.len()));
            assert(rest.subrange(p@.len() as int, rest.len() as int) =~= s@.subrange(i + p@.len(), s@.len() as int));
            append_chars(&mut out, r);
            i = i + p.len();
        } else {
            assert(rest.subrange(1, rest.len() as int) =~= s@.subrange(i + 1, s@.len() as int));
            assert(!(0 < p@.len() <= rest.len() && rest.subrange(0, p@.len() as int) == p@)) by {
                if 0 < p@.len() <= rest.len() {
                    assert(rest.subrange(0, p@.len() as int) =~= s@.subrange(i as int, i + p@.len()));
                }
            }
            out.push(s[i]);
            i = i + 1;
        }
    }
    assert(s@.subrange(s@.len() as int, s@.len() as int) =~= Seq::<char>::empty());
    assert(out@ + Seq::<char>::empty() =~= out@);
    out
}

/// A package repository: a URL template that may hold `$repo` and `$arch`,
/// the repository name and the architecture.
pub struct ArchRepo {
    url: String,
    name: String,
    arch: String,
}

/// One package as listed in a repository database.
#[derive(Debug, PartialEq, Eq)]
pub struct Pkg {
    pub name: String,
    pub base: String,
    pub filename: String,
    pub version: String,
    pub sha256sum: String,
    pub architecture: String,
    pub packager: String,
}

impl ArchRepo {
    pub closed spec fn url_view(&self) -> Seq<char> {
        self.url@
    }

    pub closed spec fn name_view(&self) -> Seq<char> {
        self.name@
    }

    pub closed spec fn arch_view(&self) -> Seq<char> {
        self.arch@
    }

    /// The repository's base URL: the template with `$repo` and then
    /// `$arch` filled in.
    pub open spec fn base_spec(&self) -> Seq<char> {
        replace_spec(replace_spec(self.url_view(), "$repo"@, self.name_view()), "$arch"@, self.arch_view())
    }

    pub fn new(url: String, name: String, arch: String) -> (r: ArchRepo)
        ensures
            r.url_view() == url@,
            r.name_view() == name@,
            r.arch_view() == arch@,
    {
        ArchRepo { url, name, arch }
    }

    fn base(&self) -> (r: Vec<char>)
        ensures
            r@ == self.base_spec(),
    {
        let u = replace_chars(&chars_of(self.url.as_str()), &chars_of("$repo"), &chars_of(self.name.as_str()));
        replace_chars(&u, &chars_of("$arch"), &chars_of(self.arch.as_str()))
    }

    /// The URL of the repository database: `<base>/<name>.db`.
    pub fn db_url(&self) -> (r: String)
        ensures
            r@ == self.base_spec() + "/"@ + self.name_view() + ".db"@,
    {
        let mut out = self.base();
        append_chars(&mut out, &chars_of("/"));
        append_chars(&mut out, &chars_of(self.name.as_str()));
        append_chars(&mut out, &chars_of(".db"));
        string_of(out.as_slice())
    }

    /// The URL of a package of the repository: `<base>/<filename>`.
    pub fn pkg_url(&self, pkg: &Pkg) -> (r: String)
        ensures
            r@ == self.base_spec() + "/"@ + pkg.filename@,
    {
        let mut out = self.base();
        append_chars(&mut out, &chars_of("/"));
        append_chars(&mut out, &chars_of(pkg.filename.as_str()));
        string_of(out.as_slice())
    }
}

/// The fields of a database record as they are read, each with every value
/// listed under its key.
#[verifier::ext_equal]
pub struct DescFields {
    pub name: Seq<Seq<char>>,
    pub base: Seq<Seq<char>>,
    pub filename: Seq<Seq<char>>,
    pub version: Seq<Seq<char>>,
    pub sha256sum: Seq<Seq<char>>,
    pub architecture: Seq<Seq<char>>,
    pub packager: Seq<Seq<char>>,
}

/// The record with the values of the field named by `key` set to `vals`;
/// unknown keys are ignored.
pub open spec fn assign_field(d: DescFields, key: Seq<char>, vals: Seq<Seq<char>>) -> DescFields {
    if key == "%FILENAME%"@ {
        DescFields { filename: vals, ..d }
    } else if key == "%NAME%"@ {
        DescFields { name: vals, ..d }
    } else if key == "%BASE%"@ {
        DescFields { base: vals, ..d }
    } else if key == "%VERSION%"@ {
        DescFields { version: vals, ..d }
    } else if key == "%SHA256SUM%"@ {
        DescFields { sha256sum: vals, ..d }
    } else if key == "%ARCH%"@ {
        DescFields { architecture: vals, ..d }
    } else if key == "%PACKAGER%"@ {
        DescFields { packager: vals, ..d }
    } else {
        d
    }
}

/// Reading state: the record so far, and the key and values of the block
/// being read.
pub struct DescState {
    pub fields: DescFields,
    pub pending: Option<(Seq<char>, Seq<Seq<char>>)>,
}

pub open spec fn empty_fields() -> DescFields {
    DescFields {
        name: Seq::empty(),
        base: Seq::empty(),
        filename: Seq::empty(),
        version: Seq::empty(),
        sha256sum: Seq::empty(),
        architecture: Seq::empty(),
        packager: Seq::empty(),
    }
}

/// One line of a `desc` file: outside a block it is a key; inside, a
/// non-empty line is a value and an empty line ends the block.
pub open spec fn desc_step(st: DescState, l: Seq<char>) -> DescState {
    match st.pending {
        None => DescState { fields: st.fields, pending: Some((l, Seq::empty())) },
        Some((k, vs)) => if l.len() > 0 {
            DescState { fields: st.fields, pending: Some((k, vs.push(l))) }
        } else {
            DescState { fields: assign_field(st.fields, k, vs), pending: None }
        },
    }
}

pub open spec fn desc_fold(lines: Seq<Seq<char>>) -> DescState
    decreases lines.len(),
{
    if lines.len() == 0 {
        DescState { fields: empty_fields(), pending: None }
    } else {
        desc_step(desc_fold(lines.drop_last()), lines.last())
    }
}

/// The record described by the text of a `desc` file; a block still open at
/// the end counts.
pub open spec fn desc_fields(text: Seq<char>) -> DescFields {
    let st = desc_fold(split_on(text, '\n'));
    match st.pending {
        Some((k, vs)) => assign_field(st.fields, k, vs),
        None => st.fields,
    }
}

/// A package record being read, with every value given for each field.
pub struct NewPkg {
    name: Vec<String>,
    base: Vec<String>,
    filename: Vec<String>,
    version: Vec<String>,
    sha256sum: Vec<String>,
    architecture: Vec<String>,
    packager: Vec<String>,
}

impl Default for NewPkg {
    fn default() -> (r: NewPkg)
        ensures
            r.fields() == empty_fields(),
    {
        let r = NewPkg {
            name: Vec::new(),
            base: Vec::new(),
            filename: Vec::new(),
            version: Vec::new(),
            sha256sum: Vec::new(),
            architecture: Vec::new(),
            packager: Vec::new(),
        };
        assert(r.fields() =~= empty_fields());
        r
    }
}

/// The first value, if any.
fn first_value(v: &Vec<String>) -> (r: Result<String, Error>)
    ensures
        v@.len() > 0 ==> (r matches Ok(s) && s@ == v@[0]@),
        v@.len() == 0 ==> r == Err::<String, Error>(Error::MalformedPackage),
{
    if v.len() == 0 {
        Err(Error::MalformedPackage)
    } else {
        Ok(string_of(chars_of(v[0].as_str()).as_slice()))
    }
}

impl NewPkg {
    pub closed spec fn fields(&self) -> DescFields {
        DescFields {
            name: string_views(self.name@),
            base: string_views(self.base@),
            filename: string_views(self.filename@),
            version: string_views(self.version@),
            sha256sum: string_views(self.sha256sum@),
            architecture: string_views(self.architecture@),
            packager: string_views(self.packager@),
        }
    }

    /// Sets the values of the field that `key` names.
    fn assign(&mut self, key: &Vec<char>, vals: Vec<String>)
        ensures
            final(self).fields() == assign_field(old(self).fields(), key@, string_views(vals@)),
    {
        let ghost d = self.fields();
        if crate::text::same_chars(key, &chars_of("%FILENAME%")) {
            self.filename = vals;
        } else if crate::text::same_chars(key, &chars_of("%NAME%")) {
            self.name = vals;
        } else if crate::text::same_chars(key, &chars_of("%BASE%")) {
            self.base = vals;
        } else if crate::text::same_chars(key, &chars_of("%VERSION%")) {
            self.version = vals;
        } else if crate::text::same_chars(key, &chars_of("%SHA256SUM%")) {
            self.sha256sum = vals;
        } else if crate::text::same_chars(key, &chars_of("%ARCH%")) {
            self.architecture = vals;
        } else if crate::text::same_chars(key, &chars_of("%PACKAGER%")) {
            self.packager = vals;
        }
        assert(self.fields() =~= assign_field(d, key@, string_views(vals@)));
    }

    /// Reads the record from the text of a `desc` file.
    pub fn from_desc(text: &str) -> (r: NewPkg)
        ensures
            r.fields() == desc_fields(text@),
    {
        let cs = chars_of(text);
        let lines = split_chars(&cs, '\n');
        let ghost all = views(lines@);
        let mut pkg = NewPkg::default();
        let mut key: Vec<char> = Vec::new();
        let mut vals: Vec<String> = Vec::new();
        let mut open_block = false;
        let mut i: usize = 0;
        assert(all.subrange(0, 0) =~= Seq::<Seq<char>>::empty());
        while i < lines.len()
            invariant
                0 <= i <= lines@.len(),
                all == views(lines@),
                all == split_on(text@, '\n'),
                ({
                    let st = desc_fold(all.subrange(0, i as int));
                    &&& st.fields == pkg.fields()
                    &&& open_block == st.pending is Some
                    &&& open_block ==> st.pending == Some((key@, string_views(vals@)))
                }),
            decreases lines.len() - i,
        {
            assert(all.subrange(0, i + 1).drop_last() =~= all.subrange(0, i as int));
            assert(all.subrange(0, i + 1).last() == lines@[i as int]@);
            let l = &lines[i];
            if !open_block {
                key = slice_chars(l, 0, l.len());
                vals = Vec::new();
                open_block = true;
                assert(string_views(vals@) =~= Seq::<Seq<char>>::empty());
            } else if l.len() > 0 {
                let ghost before = vals@;
                vals.push(string_of(l.as_slice()));
                assert(string_views(vals@) =~= string_views(before).push(l@));
            } else {
                let done = vals;
                vals = Vec::new();
                pkg.assign(&key, done);
                open_block = false;
            }
            i += 1;
        }
        assert(all.subrange(0, lines@.len() as int) =~= all);
        if open_block {
            pkg.assign(&key, vals);
        }
        pkg
    }

    /// The package described by the record: the first value of each field;
    /// `MalformedPackage` when a field has none.
    pub fn try_into(self) -> (r: Result<Pkg, Error>)
        ensures
            ({
                let d = self.fields();
                if d.name.len() > 0 && d.base.len() > 0 && d.filename.len() > 0 && d.version.len() > 0
                    && d.sha256sum.len() > 0 && d.architecture.len() > 0 && d.packager.len() > 0 {
                    r matches Ok(p) && p.name@ == d.name[0] && p.base@ == d.base[0] && p.filename@
                        == d.filename[0] && p.version@ == d.version[0] && p.sha256sum@
                        == d.sha256sum[0] && p.architecture@ == d.architecture[0] && p.packager@
                        == d.packager[0]
                } else {
                    r == Err::<Pkg, Error>(Error::MalformedPackage)
                }
            }),
    {
        Ok(Pkg {
            name: first_value(&self.name)?,
            base: first_value(&self.base)?,
            filename: first_value(&self.filename)?,
            version: first_value(&self.version)?,
            sha256sum: first_value(&self.sha256sum)?,
            architecture: first_value(&self.architecture)?,
            packager: first_value(&self.packager)?,
        })
    }
}

/// The file name under which the signature of package file `filename` is
/// published: `<filename>.t`. A name that is empty, holds `/` or starts
/// with `.` is refused with `MalformedPackage`.
pub fn sig_file_name(filename: &str) -> (r: Result<String, Error>)
    ensures
        (filename@.len() > 0 && !filename@.contains('/') && filename@[0] != '.') ==> (r matches Ok(s)
            && s@ == filename@ + ".t"@),
        !(filename@.len() > 0 && !filename@.contains('/') && filename@[0] != '.') ==> r
            == Err::<String, Error>(Error::MalformedPackage),
{
    let cs = chars_of(filename);
    if cs.len() == 0 || cs[0] == '.' {
        return Err(Error::MalformedPackage);
    }
    let mut i: usize = 0;
    while i < cs.len()
        invariant
            0 <= i <= cs@.len(),
            cs@ == filename@,
            forall|j: int| 0 <= j < i ==> cs@[j] != '/',
        decreases cs.len() - i,
    {
        if cs[i] == '/' {
            assert(filename@.contains('/'));
            return Err(Error::MalformedPackage);
        }
        i += 1;
    }
    let mut out = cs;
    append_chars(&mut out, &chars_of(".t"));
    Ok(string_of(out.as_slice()))
}

/// Whether every field of the record has a value.
pub open spec fn complete(d: DescFields) -> bool {
    d.name.len() > 0 && d.base.len() > 0 && d.filename.len() > 0 && d.version.len() > 0
        && d.sha256sum.len() > 0 && d.architecture.len() > 0 && d.packager.len() > 0
}

/// Whether `p` holds the first value of each field of `d`.
pub open spec fn pkg_matches(p: Pkg, d: DescFields) -> bool {
    p.name@ == d.name[0] && p.base@ == d.base[0] && p.filename@ == d.filename[0] && p.version@
        == d.version[0] && p.sha256sum@ == d.sha256sum[0] && p.architecture@ == d.architecture[0]
        && p.packager@ == d.packager[0]
}

/// The records of a database archive: one per regular member, each of
/// which must be text describing a complete record; `None` otherwise.
pub open spec fn db_records(ms: Seq<MemberView>) -> Option<Seq<DescFields>>
    decreases ms.len(),
{
    if ms.len() == 0 {
        Some(Seq::empty())
    } else {
        let prev = db_records(ms.drop_last());
        let m = ms.last();
        if !m.0 {
            prev
        } else {
            match (prev, m.2) {
                (Some(ds), Some(t)) => if complete(desc_fields(t)) {
                    Some(ds.push(desc_fields(t)))
                } else {
                    None
                },
                _ => None,
            }
        }
    }
}

pub proof fn lemma_db_records_none(ms: Seq<MemberView>, i: int)
    requires
        0 <= i <= ms.len(),
        db_records(ms.subrange(0, i)) is None,
    ensures
        db_records(ms) is None,
    decreases ms.len() - i,
{
    if i < ms.len() {
        assert(ms.subrange(0, i + 1).drop_last() =~= ms.subrange(0, i));
        lemma_db_records_none(ms, i + 1);
    } else {
        assert(ms.subrange(0, i) =~= ms);
    }
}

/// The packages listed in a repository database archive, in archive order;
/// `MalformedPackage` when the archive is unreadable or a record is not
/// text or lacks a field.
pub fn db_parse_pkgs(bytes: &[u8]) -> (r: Result<Vec<Pkg>, Error>)
    ensures
        match archive_members(bytes@) {
            None => r == Err::<Vec<Pkg>, Error>(Error::MalformedPackage),
            Some(ms) => match db_records(ms) {
                None => r == Err::<Vec<Pkg>, Error>(Error::MalformedPackage),
                Some(ds) => (r matches Ok(pkgs) && pkgs@.len() == ds.len() && forall|k: int|
                    0 <= k < ds.len() ==> pkg_matches(#[trigger] pkgs@[k], ds[k])),
            },
        },
{
    let members = match read_archive(bytes) {
        Ok(v) => v,
        Err(e) => return Err(e),
    };
    let ghost ms = members_view(members@);
    let mut pkgs: Vec<Pkg> = Vec::new();
    let ghost mut ds: Seq<DescFields> = Seq::empty();
    let mut i: usize = 0;
    assert(ms.subrange(0, 0) =~= Seq::<MemberView>::empty());
    while i < members.len()
        invariant
            0 <= i <= members@.len(),
            ms == members_view(members@),
            archive_members(bytes@) == Some(ms),
            db_records(ms.subrange(0, i as int)) == Some(ds),
            pkgs@.len() == ds.len(),
            forall|k: int| 0 <= k < ds.len() ==> pkg_matches(#[trigger] pkgs@[k], ds[k]),
        decreases members.len() - i,
    {
        assert(ms.subrange(0, i + 1).drop_last() =~= ms.subrange(0, i as int));
        assert(ms.subrange(0, i + 1).last() == members@[i as int].view_tuple());
        let m = &members[i];
        if m.regular {
            let text = match &m.text {
                Some(t) => t,
                None => {
                    proof {
                        lemma_db_records_none(ms, i + 1);
                    }
                    return Err(Error::MalformedPackage);
                },
            };
            let rec = NewPkg::from_desc(text.as_str());
            let ghost d = rec.fields();
            match rec.try_into() {
                Ok(p) => {
                    pkgs.push(p);
                    proof {
                        ds = ds.push(d);
                    }
                },
                Err(e) => {
                    proof {
                        lemma_db_records_none(ms, i + 1);
                    }
                    return Err(e);
                },
            }
        }
        i += 1;
    }
    assert(ms.subrange(0, members@.len() as int) =~= ms);
    Ok(pkgs)
}

} // verus!
