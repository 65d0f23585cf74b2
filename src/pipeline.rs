//! The download-and-verify sequence as a state machine. The caller performs
//! each action (a download, a run of the log client, a rebuilder query, the
//! final write) and reports back with an event; every decision is made here.

use vstd::prelude::*;
use crate::archive::{parse_pkg_info, pkginfo_of_package, PkgInfo};
use crate::classify::{is_package_url, needs_transparency_proof};
use crate::error::Error;
use crate::fetch::PROOF_SIZE_LIMIT;
use crate::rebuild::{confirms_release, count_confirms, lemma_count_confirms_bound, release_confirmed, Release};
use crate::signature::{canonical_hash_of, check_signature, signature_valid};
use crate::translog::{log_next, log_transition, LogCommand, LogPhase, LogStep};
use crate::weburl::{build_query_url, proof_url, proof_url_spec, query_url_spec};

verus! {

/// What a verification is configured with.
#[derive(Debug, Clone)]
pub struct VerifyConfig {
    /// The transparency public key, in minisign's base64 form.
    pub pubkey: String,
    /// Where proofs are fetched from instead of next to the package.
    pub transparency_url: Option<String>,
    /// Rebuilder base URLs, in the order they are asked.
    pub rebuilders: Vec<String>,
    /// How many rebuilders must confirm the package; 0 with no rebuilders
    /// disables the rebuilder check.
    pub required_confirms: usize,
}

impl VerifyConfig {
    /// Whether the rebuilder check runs at all.
    pub open spec fn quorum_enabled(&self) -> bool {
        self.rebuilders@.len() > 0 || self.required_confirms > 0
    }
}

/// Where a verification stands.
#[derive(Debug, Clone, Copy, PartialEq, Eq, Structural)]
pub enum Stage {
    /// Not a package: waiting for the plain download to the output.
    Plain,
    /// Waiting for the package bytes.
    AwaitPackage,
    /// Waiting for the transparency proof.
    AwaitProof,
    /// Waiting for a run of the log client.
    InLog(LogPhase),
    /// Waiting for the answer of a rebuilder.
    Rebuilders,
    /// Every check passed; waiting for the output to be written.
    Writing,
    /// Finished successfully.
    Done,
    /// Finished with an error.
    Failed,
}

/// What the caller is asked to do next.
#[derive(Debug)]
pub enum Action {
    /// Stream `url` straight to the output path, without checks.
    DownloadToFile { url: String },
    /// The output path exists: read it and report its bytes as the package.
    ReadExisting,
    /// Download the package at `url` into memory.
    DownloadPackage { url: String },
    /// Download the proof at `url`, failing beyond `limit` bytes.
    FetchProof { url: String, limit: usize },
    /// Run the log client with `command` and the proof `signature`, feeding
    /// `hash` on standard input.
    RunLog { command: LogCommand, hash: Vec<u8>, signature: Vec<u8> },
    /// Ask the rebuilder at position `index` for its list at `url`.
    QueryRebuilder { index: usize, url: String },
    /// Write the verified package to the output path.
    WriteOutput,
    /// Stop with this result.
    Finish(Result<(), Error>),
}

/// What the caller reports after performing an action.
#[derive(Debug)]
pub enum Event {
    /// The result of a download into memory, or of reading the output.
    Fetched(Result<Vec<u8>, Error>),
    /// The result of writing the output (plain download or final write).
    Saved(Result<(), Error>),
    /// The log client exited, successfully or not.
    LogExited(bool),
    /// A rebuilder answered with its records, or could not be queried.
    RebuilderAnswered(Option<Vec<Release>>),
}

/// One verification of one download.
pub struct Session {
    config: VerifyConfig,
    url: String,
    stage: Stage,
    package: Vec<u8>,
    proof: Vec<u8>,
    hash: Vec<u8>,
    log_confirmed: bool,
    info: Option<PkgInfo>,
    outcomes: Vec<bool>,
    confirms: usize,
}

/// Whether an event is the kind of report that `s` waits for.
pub open spec fn expects(s: Stage, e: Event) -> bool {
    match s {
        Stage::Plain | Stage::Writing => e is Saved,
        Stage::AwaitPackage | Stage::AwaitProof => e is Fetched,
        Stage::InLog(_) => e is LogExited,
        Stage::Rebuilders => e is RebuilderAnswered,
        _ => false,
    }
}

impl Session {
    pub closed spec fn stage_view(&self) -> Stage {
        self.stage
    }

    pub closed spec fn key(&self) -> Seq<char> {
        self.config.pubkey@
    }

    pub closed spec fn package_view(&self) -> Seq<u8> {
        self.package@
    }

    pub closed spec fn proof_view(&self) -> Seq<u8> {
        self.proof@
    }

    /// Whether a lookup in the log has succeeded.
    pub closed spec fn log_confirmed_view(&self) -> bool {
        self.log_confirmed
    }

    pub closed spec fn outcomes_view(&self) -> Seq<bool> {
        self.outcomes@
    }

    pub closed spec fn url_view(&self) -> Seq<char> {
        self.url@
    }

    pub closed spec fn transparency_base(&self) -> Option<Seq<char>> {
        match self.config.transparency_url {
            Some(t) => Some(t@),
            None => None,
        }
    }

    /// The package name and version, once read.
    pub closed spec fn info_view(&self) -> Option<(Seq<char>, Seq<char>)> {
        match self.info {
            Some(i) => Some((i.name@, i.version@)),
            None => None,
        }
    }

    pub closed spec fn required(&self) -> usize {
        self.config.required_confirms
    }

    pub closed spec fn quorum_enabled(&self) -> bool {
        self.config.quorum_enabled()
    }

    /// The base URL of the rebuilder at position `i`.
    pub closed spec fn rebuilder_view(&self, i: int) -> Seq<char> {
        self.config.rebuilders@[i]@
    }

    pub closed spec fn rebuilder_count(&self) -> nat {
        self.config.rebuilders@.len()
    }

    /// Whether `o` was set up like this session: the same URL, key,
    /// transparency base, rebuilders and quorum.
    pub open spec fn same_setup(&self, o: Session) -> bool {
        &&& self.key() == o.key()
        &&& self.url_view() == o.url_view()
        &&& self.transparency_base() == o.transparency_base()
        &&& self.required() == o.required()
        &&& self.quorum_enabled() == o.quorum_enabled()
        &&& self.rebuilder_count() == o.rebuilder_count()
        &&& forall|i: int| #[trigger] self.rebuilder_view(i) == o.rebuilder_view(i)
    }

    /// The query URL of the rebuilder at position `j` for the package's name.
    pub open spec fn rebuilder_url(&self, j: int) -> Option<Seq<char>> {
        match self.info_view() {
            Some((n, _)) => query_url_spec(self.rebuilder_view(j), n),
            None => None,
        }
    }

    /// After the outcomes `base`, every rebuilder whose query URL cannot be
    /// built is counted as not confirming; then `r` asks the next rebuilder
    /// in list order, or, when none is left, writes the output if enough
    /// confirmed and reports the shortfall otherwise.
    pub open spec fn advanced(&self, base: Seq<bool>, r: Action) -> bool {
        let q = self.outcomes_view();
        &&& q.len() >= base.len()
        &&& q.subrange(0, base.len() as int) == base
        &&& forall|j: int| base.len() <= j < q.len() ==> !q[j] && #[trigger] self.rebuilder_url(j) is None
        &&& match r {
            Action::QueryRebuilder { index, url } => index == q.len() && index < self.rebuilder_count()
                && self.rebuilder_url(index as int) == Some(url@) && self.stage_view()
                == Stage::Rebuilders,
            Action::WriteOutput => q.len() == self.rebuilder_count() && count_confirms(q)
                >= self.required() && self.stage_view() == Stage::Writing,
            Action::Finish(Err(Error::QuorumShortfall { confirms, required })) => q.len()
                == self.rebuilder_count() && confirms == count_confirms(q) && required
                == self.required() && confirms < required && self.stage_view() == Stage::Failed,
            _ => false,
        }
    }

    /// Every check that precedes writing the output has passed.
    pub open spec fn checks_passed(&self) -> bool {
        &&& signature_valid(self.key(), self.package_view(), self.proof_view())
        &&& self.log_confirmed_view()
        &&& self.quorum_enabled() ==> self.outcomes_view().len() == self.rebuilder_count()
            && count_confirms(self.outcomes_view()) >= self.required()
    }

    /// The session's internal consistency.
    pub closed spec fn inv(&self) -> bool {
        &&& self.confirms == count_confirms(self.outcomes@)
        &&& self.outcomes@.len() <= self.config.rebuilders@.len()
        &&& self.info is Some ==> self.info_view() == pkginfo_of_package(self.package@)
        &&& match self.stage {
            Stage::Plain | Stage::AwaitPackage | Stage::AwaitProof => self.outcomes@.len() == 0
                && self.info is None && !self.log_confirmed,
            Stage::InLog(_) => signature_valid(self.config.pubkey@, self.package@, self.proof@)
                && self.hash@ == canonical_hash_of(self.package@) && self.outcomes@.len() == 0
                && self.info is None && !self.log_confirmed,
            Stage::Rebuilders => signature_valid(self.config.pubkey@, self.package@, self.proof@)
                && self.log_confirmed && self.info is Some && self.outcomes@.len()
                < self.config.rebuilders@.len() && self.config.quorum_enabled(),
            Stage::Writing => self.checks_passed(),
            _ => true,
        }
    }

    /// Begins the download of `url`. A package is verified before it is
    /// written; if `output_exists`, the file already there is verified in
    /// place of a new download. Anything else is downloaded as it is.
    pub fn start(url: &str, output_exists: bool, config: VerifyConfig) -> (r: (Session, Action))
        ensures
            r.0.inv(),
            !is_package_url(url@) ==> r.0.stage_view() == Stage::Plain && (r.1 matches Action::DownloadToFile { url: u } && u@ == url@),
            is_package_url(url@) ==> r.0.stage_view() == Stage::AwaitPackage,
            is_package_url(url@) && output_exists ==> r.1 is ReadExisting,
            is_package_url(url@) && !output_exists ==> (r.1 matches Action::DownloadPackage { url: u } && u@ == url@),
            r.0.key() == config.pubkey@,
            r.0.url_view() == url@,
            r.0.transparency_base() == (match config.transparency_url { Some(t) => Some(t@), None => None::<Seq<char>> }),
            r.0.required() == config.required_confirms,
            r.0.quorum_enabled() == config.quorum_enabled(),
            r.0.rebuilder_count() == config.rebuilders@.len(),
            forall|i: int| 0 <= i < config.rebuilders@.len() ==> #[trigger] r.0.rebuilder_view(i) == config.rebuilders@[i]@,
            !r.0.log_confirmed_view(),
            r.0.outcomes_view().len() == 0,
            r.0.info_view() is None,
    {
        let pkg = needs_transparency_proof(url);
        let stage = if pkg { Stage::AwaitPackage } else { Stage::Plain };
        let s = Session {
            config,
            url: url.to_owned(),
            stage,
            package: Vec::new(),
            proof: Vec::new(),
            hash: Vec::new(),
            log_confirmed: false,
            info: None,
            outcomes: Vec::new(),
            confirms: 0,
        };
        let action = if !pkg {
            Action::DownloadToFile { url: url.to_owned() }
        } else if output_exists {
            Action::ReadExisting
        } else {
            Action::DownloadPackage { url: url.to_owned() }
        };
        (s, action)
    }

    proof fn lemma_same_urls(a: Session, b: Session)
        requires
            a.config == b.config,
            a.info == b.info,
        ensures
            forall|j: int|
                #![trigger a.rebuilder_url(j)]
                #![trigger b.rebuilder_url(j)]
                a.rebuilder_url(j) == b.rebuilder_url(j),
    {
    }

    /// Ends the session with error `e`.
    fn fail(&mut self, e: Error) -> (r: Action)
        requires
            old(self).inv(),
        ensures
            final(self).inv(),
            final(self).stage == Stage::Failed,
            r == Action::Finish(Err(e)),
            final(self).config == old(self).config,
            final(self).url == old(self).url,
            final(self).package == old(self).package,
            final(self).proof == old(self).proof,
            final(self).hash == old(self).hash,
            final(self).log_confirmed == old(self).log_confirmed,
            final(self).info == old(self).info,
            final(self).outcomes == old(self).outcomes,
    {
        self.stage = Stage::Failed;
        Action::Finish(Err(e))
    }

    /// Asks the next rebuilder whose query URL can be built, counting one
    /// whose URL cannot as not confirming; after the last, decides the
    /// quorum.
    fn next_rebuilder(&mut self) -> (r: Action)
        requires
            old(self).inv(),
            old(self).stage == Stage::Failed,
            old(self).info is Some,
            old(self).log_confirmed,
            old(self).config.quorum_enabled(),
            signature_valid(old(self).config.pubkey@, old(self).package@, old(self).proof@),
        ensures
            final(self).inv(),
            final(self).advanced(old(self).outcomes@, r),
            final(self).config == old(self).config,
            final(self).url == old(self).url,
            final(self).package == old(self).package,
            final(self).proof == old(self).proof,
            final(self).log_confirmed == old(self).log_confirmed,
            final(self).info == old(self).info,
    {
        let ghost start = self.outcomes@;
        assert(self.outcomes@.subrange(0, start.len() as int) =~= start);
        while self.outcomes.len() < self.config.rebuilders.len()
            invariant
                self.inv(),
                self.stage == Stage::Failed,
                self.info is Some,
                self.log_confirmed,
                self.config.quorum_enabled(),
                signature_valid(self.config.pubkey@, self.package@, self.proof@),
                start == old(self).outcomes@,
                self.outcomes@.len() >= start.len(),
                self.outcomes@.subrange(0, start.len() as int) == start,
                forall|j: int| start.len() <= j < self.outcomes@.len() ==> !self.outcomes@[j]
                    && #[trigger] self.rebuilder_url(j) is None,
                self.config == old(self).config,
                self.url == old(self).url,
                self.package == old(self).package,
                self.proof == old(self).proof,
                self.log_confirmed == old(self).log_confirmed,
                self.info == old(self).info,
            decreases self.config.rebuilders@.len() - self.outcomes@.len(),
        {
            let i = self.outcomes.len();
            let name = match &self.info {
                Some(info) => info.name.as_str(),
                None => "",
            };
            assert(name@ == self.info->0.name@);
            let q = build_query_url(self.config.rebuilders[i].as_str(), name);
            assert(match q {
                Ok(u) => self.rebuilder_url(i as int) == Some(u@),
                Err(_) => self.rebuilder_url(i as int) is None,
            });
            match q {
                Ok(url) => {
                    let ghost before = *self;
                    self.stage = Stage::Rebuilders;
                    proof {
                        Self::lemma_same_urls(before, *self);
                    }
                    return Action::QueryRebuilder { index: i, url };
                },
                Err(_) => {
                    let ghost before = self.outcomes@;
                    let ghost pre = *self;
                    self.record_outcome(false);
                    proof {
                        Self::lemma_same_urls(pre, *self);
                    }
                    assert(self.outcomes@.subrange(0, start.len() as int) =~= before.subrange(0, start.len() as int));
                    assert forall|j: int| start.len() <= j < self.outcomes@.len() implies !self.outcomes@[j]
                        && #[trigger] self.rebuilder_url(j) is None by {
                        if j < before.len() {
                            assert(self.outcomes@[j] == before[j]);
                        }
                        assert(pre.rebuilder_url(j) is None);
                    }
                },
            }
        }
        let ghost pre = *self;
        let r = if self.confirms >= self.config.required_confirms {
            self.stage = Stage::Writing;
            Action::WriteOutput
        } else {
            let e = Error::QuorumShortfall { confirms: self.confirms, required: self.config.required_confirms };
            self.fail(e)
        };
        proof {
            Self::lemma_same_urls(pre, *self);
        }
        r
    }

    /// Records whether one more rebuilder confirmed.
    fn record_outcome(&mut self, ok: bool)
        requires
            old(self).inv(),
            old(self).outcomes@.len() < old(self).config.rebuilders@.len(),
            old(self).stage == Stage::Failed,
        ensures
            final(self).inv(),
            final(self).outcomes@ == old(self).outcomes@.push(ok),
            final(self).stage == old(self).stage,
            final(self).config == old(self).config,
            final(self).url == old(self).url,
            final(self).package == old(self).package,
            final(self).proof == old(self).proof,
            final(self).hash == old(self).hash,
            final(self).log_confirmed == old(self).log_confirmed,
            final(self).info == old(self).info,
    {
        proof {
            lemma_count_confirms_bound(self.outcomes@);
        }
        let ghost before = self.outcomes@;
        let count = self.config.rebuilders.len();
        assert(self.confirms < count);
        self.outcomes.push(ok);
        assert(self.outcomes@.drop_last() =~= before);
        if ok {
            self.confirms = self.confirms + 1;
        }
    }

    /// Takes in the report `e` on the last action and returns the next one.
    /// The output is only ever written (`WriteOutput`) once the proof
    /// verified against these very package bytes, the log confirmed the
    /// signature, and, when enabled, enough rebuilders confirmed.
    pub fn step(&mut self, e: Event) -> (r: Action)
        requires
            old(self).inv(),
            expects(old(self).stage_view(), e),
        ensures
            final(self).inv(),
            final(self).same_setup(*old(self)),
            r is WriteOutput ==> final(self).checks_passed() && final(self).stage_view() == Stage::Writing,
            final(self).log_confirmed_view() == (old(self).log_confirmed_view() || (e matches Event::LogExited(ok)
                && old(self).stage_view() matches Stage::InLog(p) && log_transition(p, ok) is Confirmed)),
            !(e is RebuilderAnswered) && !(e is LogExited) ==> final(self).outcomes_view() == old(self).outcomes_view(),
            !(e is Fetched) ==> final(self).package_view() == old(self).package_view(),
            !(e is Fetched) ==> final(self).proof_view() == old(self).proof_view(),
            e matches Event::Saved(res) ==> r == Action::Finish(res) && final(self).stage_view() == (
                if res is Ok { Stage::Done } else { Stage::Failed }),
            e matches Event::Fetched(Err(x)) ==> r == Action::Finish(Err(x)) && final(self).stage_view() == Stage::Failed
                && final(self).package_view() == old(self).package_view(),
            e matches Event::Fetched(Ok(b)) ==> (old(self).stage_view() == Stage::AwaitPackage ==> (
                final(self).package_view() == b@ && match proof_url_spec(old(self).url_view(), old(self).transparency_base()) {
                    Some(u) => (r matches Action::FetchProof { url, limit } && url@ == u && limit == PROOF_SIZE_LIMIT)
                        && final(self).stage_view() == Stage::AwaitProof,
                    None => r == Action::Finish(Err(Error::MalformedUrl)) && final(self).stage_view() == Stage::Failed,
                })),
            e matches Event::Fetched(Ok(sig)) ==> (old(self).stage_view() == Stage::AwaitProof ==> (
                final(self).package_view() == old(self).package_view() &&
                if signature_valid(old(self).key(), old(self).package_view(), sig@) {
                    (r matches Action::RunLog { command, hash, signature } && command == LogCommand::Verify
                        && hash@ == canonical_hash_of(old(self).package_view()) && signature@ == sig@)
                        && final(self).stage_view() == Stage::InLog(LogPhase::Checking)
                        && final(self).proof_view() == sig@
                } else {
                    r == Action::Finish(Err(Error::InvalidSignature)) && final(self).stage_view() == Stage::Failed
                })),
            e matches Event::LogExited(ok) ==> (old(self).stage_view() matches Stage::InLog(p) ==> (
                final(self).package_view() == old(self).package_view()
                && final(self).proof_view() == old(self).proof_view()
                && match log_transition(p, ok) {
                    LogStep::Run { phase, command } => (r matches Action::RunLog { command: c, hash, signature }
                        && c == command && hash@ == canonical_hash_of(old(self).package_view())
                        && signature@ == old(self).proof_view())
                        && final(self).stage_view() == Stage::InLog(phase)
                        && final(self).outcomes_view() == old(self).outcomes_view(),
                    LogStep::Failed(x) => r == Action::Finish(Err(x)) && final(self).stage_view() == Stage::Failed
                        && final(self).outcomes_view() == old(self).outcomes_view(),
                    LogStep::Confirmed => if !old(self).quorum_enabled() {
                        r is WriteOutput
                    } else {
                        match pkginfo_of_package(old(self).package_view()) {
                            None => r == Action::Finish(Err(Error::MalformedPackage))
                                && final(self).stage_view() == Stage::Failed,
                            Some(nv) => final(self).info_view() == Some(nv)
                                && final(self).advanced(Seq::<bool>::empty(), r),
                        }
                    },
                })),
            e matches Event::RebuilderAnswered(answer) ==> (
                final(self).package_view() == old(self).package_view()
                && final(self).info_view() == old(self).info_view()
                && final(self).advanced(old(self).outcomes_view().push(
                    answer matches Some(rs) && old(self).info_view() matches Some((n, v))
                        && confirms_release(rs@, n, v)), r)),
    {
        let ghost pre = *self;
        let r = match e {
            Event::Saved(Ok(u)) => {
                self.stage = Stage::Done;
                Action::Finish(Ok(u))
            },
            Event::Saved(Err(x)) => self.fail(x),
            Event::Fetched(Err(x)) => self.fail(x),
            Event::Fetched(Ok(bytes)) => {
                if self.stage == Stage::AwaitPackage {
                    self.package = bytes;
                    let base = match &self.config.transparency_url {
                        Some(t) => Some(t.as_str()),
                        None => None,
                    };
                    match proof_url(self.url.as_str(), base) {
                        Ok(url) => {
                            self.stage = Stage::AwaitProof;
                            Action::FetchProof { url, limit: PROOF_SIZE_LIMIT }
                        },
                        Err(x) => self.fail(x),
                    }
                } else {
                    match check_signature(self.config.pubkey.as_str(), self.package.as_slice(), bytes.as_slice()) {
                        Ok(hash) => {
                            self.proof = bytes;
                            self.hash = hash;
                            self.stage = Stage::InLog(LogPhase::Checking);
                            Action::RunLog {
                                command: LogCommand::Verify,
                                hash: self.hash.clone(),
                                signature: self.proof.clone(),
                            }
                        },
                        Err(x) => self.fail(x),
                    }
                }
            },
            Event::LogExited(ok) => {
                let p = match self.stage {
                    Stage::InLog(p) => p,
                    _ => LogPhase::Checking,
                };
                match log_next(p, ok) {
                    LogStep::Run { phase, command } => {
                        self.stage = Stage::InLog(phase);
                        Action::RunLog { command, hash: self.hash.clone(), signature: self.proof.clone() }
                    },
                    LogStep::Failed(x) => self.fail(x),
                    LogStep::Confirmed => {
                        if !(self.config.rebuilders.len() > 0 || self.config.required_confirms > 0) {
                            self.log_confirmed = true;
                            self.stage = Stage::Writing;
                            Action::WriteOutput
                        } else {
                            match parse_pkg_info(self.package.as_slice()) {
                                Ok(info) => {
                                    assert(self.outcomes@ =~= Seq::<bool>::empty());
                                    // No rebuilder is pending until next_rebuilder sets the stage.
                                    self.stage = Stage::Failed;
                                    self.log_confirmed = true;
                                    self.info = Some(info);
                                    self.next_rebuilder()
                                },
                                Err(x) => {
                                    let r = self.fail(x);
                                    self.log_confirmed = true;
                                    r
                                },
                            }
                        }
                    },
                }
            },
            Event::RebuilderAnswered(answer) => {
                let ok = match (&answer, &self.info) {
                    (Some(rs), Some(info)) => release_confirmed(rs, info.name.as_str(), info.version.as_str()),
                    _ => false,
                };
                // No rebuilder is pending until next_rebuilder sets the stage.
                self.stage = Stage::Failed;
                self.record_outcome(ok);
                self.next_rebuilder()
            },
        };
        assert(self.config == pre.config);
        r
    }

    /// Whether `e` is the kind of report the session waits for now.
    pub fn accepts(&self, e: &Event) -> (r: bool)
        ensures
            r == expects(self.stage_view(), *e),
    {
        match self.stage {
            Stage::Plain | Stage::Writing => matches!(e, Event::Saved(_)),
            Stage::AwaitPackage | Stage::AwaitProof => matches!(e, Event::Fetched(_)),
            Stage::InLog(_) => matches!(e, Event::LogExited(_)),
            Stage::Rebuilders => matches!(e, Event::RebuilderAnswered(_)),
            _ => false,
        }
    }

    /// The current stage.
    pub fn stage(&self) -> (r: Stage)
        ensures
            r == self.stage_view(),
    {
        self.stage
    }

    /// The package bytes, which `WriteOutput` asks to be written.
    pub fn package(&self) -> (r: &[u8])
        ensures
            r@ == self.package_view(),
    {
        self.package.as_slice()
    }

    /// Whether each rebuilder asked so far confirmed, in list order.
    pub fn outcomes(&self) -> (r: &[bool])
        ensures
            r@ == self.outcomes_view(),
    {
        self.outcomes.as_slice()
    }

    /// How many rebuilders confirmed so far.
    pub fn confirms(&self) -> (r: usize)
        requires
            self.inv(),
        ensures
            r == count_confirms(self.outcomes_view()),
    {
        self.confirms
    }

}

} // verus!
