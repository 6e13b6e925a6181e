//! Model fetcher: the all-or-nothing acquisition of a named model into the
//! managed directory.
//!
//! The fetch itself is file and network I/O, which the surrounding
//! application performs; every decision — whether to download at all, what
//! URL and destination to use, and what to do after each step — is taken
//! here by a small state machine. The application feeds each outside outcome
//! back in and carries the returned action out, so a failed download always
//! ends in the partial file's removal before the failure is reported.

use vstd::prelude::*;

use crate::error::VtError;
use crate::fsutil::{join_path, push_char, spec_dec, spec_join, u64_to_dec};

verus! {

/// Remote origin below which each model is published under its own name.
pub fn base_url() -> (r: &'static str)
    ensures
        r@ == "https://huggingface.co/ggerganov/whisper.cpp/resolve/main"@,
{
    "https://huggingface.co/ggerganov/whisper.cpp/resolve/main"
}

/// The URL of a SOCKS5 proxy at `host` and `port`.
pub open spec fn spec_proxy_url(host: Seq<char>, port: u16) -> Seq<char> {
    "socks5://"@ + host + seq![':'] + spec_dec(port as nat)
}

/// Renders the proxy configuration as a SOCKS5 URL.
pub fn socks5_proxy_url(host: &str, port: u16) -> (r: String)
    ensures
        r@ == spec_proxy_url(host@, port),
{
    let mut s = String::from_str("socks5://");
    s.append(host);
    push_char(&mut s, ':');
    let p = u64_to_dec(port as u64);
    s.append(p.as_str());
    assert(s@ =~= spec_proxy_url(host@, port));
    s
}

/// One model name bound to the managed directory that should hold it.
pub struct ModelHandler {
    pub model_name: String,
    pub models_dir: String,
}

/// Where the fetch of one model stands.
pub enum FetchPhase {
    /// Waiting to learn whether the destination file already exists.
    Probing,
    /// Waiting for the managed directory to be created.
    Preparing,
    /// Waiting for the download's outcome.
    Downloading,
    /// The download failed for the carried reason; waiting for the partial
    /// file's removal.
    Cleaning(String),
    /// The model is in place.
    Done,
    /// The fetch failed and was cleaned up.
    Failed,
}

/// What the application must do next on behalf of the fetch.
pub enum FetchAction {
    /// Ask whether a regular file exists at this path.
    CheckFile(String),
    /// Create this directory (and its parents) if it is absent.
    CreateDir(String),
    /// Issue one HTTP GET for the first path and write the body verbatim to
    /// the second; a 30-second timeout and no retry.
    Download(String, String),
    /// Delete the file at this path if it was created.
    RemoveFile(String),
    /// Hand this outcome to the caller; the fetch is over.
    Report(Result<String, VtError>),
}

impl ModelHandler {
    /// Binds a model name to its managed directory.
    pub fn new(model_name: &str, models_dir: &str) -> (m: ModelHandler)
        ensures
            m.model_name@ == model_name@,
            m.models_dir@ == models_dir@,
    {
        ModelHandler { model_name: model_name.to_owned(), models_dir: models_dir.to_owned() }
    }

    /// The destination path of this model.
    pub open spec fn spec_model_path(&self) -> Seq<char> {
        spec_join(self.models_dir@, self.model_name@)
    }

    /// Path of this model inside the managed directory.
    pub fn get_model_dir(&self) -> (r: String)
        ensures
            r@ == self.spec_model_path(),
    {
        join_path(self.models_dir.as_str(), self.model_name.as_str())
    }

    /// Starts a fetch of this model.
    pub fn begin_fetch(&self) -> (m: FetchMachine)
        ensures
            m.model_name@ == self.model_name@,
            m.models_dir@ == self.models_dir@,
            m.phase is Probing,
    {
        FetchMachine {
            model_name: self.model_name.clone(),
            models_dir: self.models_dir.clone(),
            phase: FetchPhase::Probing,
        }
    }
}

/// The decision core of one fetch: it is fed each outside outcome and
/// answers with the next action, so that the fetch is idempotent when the
/// file already exists and all-or-nothing when anything fails.
pub struct FetchMachine {
    pub model_name: String,
    pub models_dir: String,
    pub phase: FetchPhase,
}

impl FetchMachine {
    /// The destination path this fetch writes.
    pub open spec fn spec_dest(&self) -> Seq<char> {
        spec_join(self.models_dir@, self.model_name@)
    }

    /// The origin URL this fetch reads.
    pub open spec fn spec_url(&self) -> Seq<char> {
        spec_join("https://huggingface.co/ggerganov/whisper.cpp/resolve/main"@, self.model_name@)
    }

    pub open spec fn same_target(&self, other: &FetchMachine) -> bool {
        self.model_name@ == other.model_name@ && self.models_dir@ == other.models_dir@
    }

    /// The probe the application must answer first.
    pub fn probe_action(&self) -> (a: FetchAction)
        requires
            self.phase is Probing,
        ensures
            a matches FetchAction::CheckFile(p) && p@ == self.spec_dest(),
    {
        FetchAction::CheckFile(self.get_dest())
    }

    fn get_dest(&self) -> (r: String)
        ensures
            r@ == self.spec_dest(),
    {
        join_path(self.models_dir.as_str(), self.model_name.as_str())
    }

    /// Feeds in whether the destination file already exists. An existing
    /// file ends the fetch at once with its path: no directory is created
    /// and no network is touched.
    pub fn on_probe(&mut self, exists: bool) -> (a: FetchAction)
        requires
            old(self).phase is Probing,
        ensures
            final(self).same_target(old(self)),
            exists ==> final(self).phase is Done && (a matches FetchAction::Report(r) && r
                matches Ok(p) && p@ == old(self).spec_dest()),
            !exists ==> final(self).phase is Preparing && (a matches FetchAction::CreateDir(d)
                && d@ == old(self).models_dir@),
    {
        if exists {
            self.phase = FetchPhase::Done;
            FetchAction::Report(Ok(self.get_dest()))
        } else {
            self.phase = FetchPhase::Preparing;
            FetchAction::CreateDir(self.models_dir.clone())
        }
    }

    /// Feeds in whether the managed directory could be created. Failure ends
    /// the fetch; nothing was written, so nothing is cleaned up.
    pub fn on_dir_ready(&mut self, ok: bool, reason: String) -> (a: FetchAction)
        requires
            old(self).phase is Preparing,
        ensures
            final(self).same_target(old(self)),
            ok ==> final(self).phase is Downloading && (a matches FetchAction::Download(u, d)
                && u@ == old(self).spec_url() && d@ == old(self).spec_dest()),
            !ok ==> final(self).phase is Failed && (a matches FetchAction::Report(r) && r
                matches Err(e) && e matches VtError::FetchFailed(m) && m@ == reason@),
    {
        if ok {
            self.phase = FetchPhase::Downloading;
            let url = join_path(base_url(), self.model_name.as_str());
            FetchAction::Download(url, self.get_dest())
        } else {
            self.phase = FetchPhase::Failed;
            FetchAction::Report(Err(VtError::FetchFailed(reason)))
        }
    }

    /// Feeds in the download's outcome. Success ends the fetch with the
    /// destination path; failure first demands the partial file's removal.
    pub fn on_download(&mut self, ok: bool, reason: String) -> (a: FetchAction)
        requires
            old(self).phase is Downloading,
        ensures
            final(self).same_target(old(self)),
            ok ==> final(self).phase is Done && (a matches FetchAction::Report(r) && r matches
                Ok(p) && p@ == old(self).spec_dest()),
            !ok ==> (final(self).phase matches FetchPhase::Cleaning(m) && m@ == reason@) && (a
                matches FetchAction::RemoveFile(p) && p@ == old(self).spec_dest()),
    {
        if ok {
            self.phase = FetchPhase::Done;
            FetchAction::Report(Ok(self.get_dest()))
        } else {
            let dest = self.get_dest();
            self.phase = FetchPhase::Cleaning(reason);
            FetchAction::RemoveFile(dest)
        }
    }

    /// Feeds in that the partial file was removed; the failure that caused
    /// the cleanup is now reported.
    pub fn on_removed(&mut self) -> (a: FetchAction)
        requires
            old(self).phase is Cleaning,
        ensures
            final(self).same_target(old(self)),
            final(self).phase is Failed,
            a matches FetchAction::Report(r) && r matches Err(e) && e
                matches VtError::FetchFailed(m) && old(self).phase matches FetchPhase::Cleaning(
                m0,
            ) && m@ == m0@,
    {
        let reason = match &self.phase {
            FetchPhase::Cleaning(m) => m.clone(),
            _ => vstd::pervasive::unreached(),
        };
        self.phase = FetchPhase::Failed;
        FetchAction::Report(Err(VtError::FetchFailed(reason)))
    }
}

} // verus!

use crate::catalog::{is_name_in, spec_string_views};

verus! {

/// The effect of one fetch of `name` on a directory holding the file names
/// `dir`, when the outside world answers directory creation with `dir_ok`
/// and the download with `dl_ok`: the directory afterwards, whether the
/// fetch succeeded, and whether the network was touched.
pub open spec fn spec_fetch(dir: Set<Seq<char>>, name: Seq<char>, dir_ok: bool, dl_ok: bool) -> (
    Set<Seq<char>>,
    bool,
    bool,
) {
    if dir.contains(name) {
        (dir, true, false)
    } else if !dir_ok {
        (dir, false, false)
    } else if dl_ok {
        (dir.insert(name), true, true)
    } else {
        (dir.remove(name), false, true)
    }
}

/// Idempotent fetch: once a fetch of `name` has succeeded, any further fetch
/// of `name` succeeds at once, touches no network, and leaves the directory
/// unchanged.
pub proof fn lemma_fetch_idempotent(
    dir: Set<Seq<char>>,
    name: Seq<char>,
    dir_ok: bool,
    dl_ok: bool,
    dir_ok2: bool,
    dl_ok2: bool,
)
    requires
        spec_fetch(dir, name, dir_ok, dl_ok).1,
    ensures
        ({
            let d1 = spec_fetch(dir, name, dir_ok, dl_ok).0;
            let second = spec_fetch(d1, name, dir_ok2, dl_ok2);
            second.0 == d1 && second.1 && !second.2
        }),
{
}

/// Cleanup on failure: a failed fetch of `name` leaves the directory without
/// a file of that name, and removes nothing else.
pub proof fn lemma_fetch_cleanup(dir: Set<Seq<char>>, name: Seq<char>, dir_ok: bool, dl_ok: bool)
    requires
        !spec_fetch(dir, name, dir_ok, dl_ok).1,
    ensures
        !spec_fetch(dir, name, dir_ok, dl_ok).0.contains(name),
        spec_fetch(dir, name, dir_ok, dl_ok).0 =~= dir.remove(name),
{
}

/// Runs one fetch of `name` against a directory modeled as the list of its
/// file names: the machine decides each step, and the given outside
/// outcomes (`dir_ok` for directory creation, `dl_ok` for the download) are
/// applied to the model as the real I/O would be, a failing step carrying
/// `fail_reason`. Model and outcome afterwards are exactly `spec_fetch` of
/// the model before.
pub fn run_fetch(
    dir: &mut Vec<String>,
    name: &str,
    models_dir: &str,
    dir_ok: bool,
    dl_ok: bool,
    fail_reason: &str,
) -> (r: Result<String, VtError>)
    ensures
        ({
            let out = spec_fetch(spec_string_views(old(dir)@).to_set(), name@, dir_ok, dl_ok);
            &&& spec_string_views(final(dir)@).to_set() == out.0
            &&& (r is Ok <==> out.1)
            &&& (r matches Ok(p) ==> p@ == spec_join(models_dir@, name@))
            &&& (r matches Err(e) ==> e matches VtError::FetchFailed(m) && m@ == fail_reason@)
        }),
{
    let ghost dir0 = spec_string_views(dir@).to_set();
    let handler = ModelHandler::new(name, models_dir);
    let mut m = handler.begin_fetch();
    let exists = is_name_in(dir, name);
    proof {
        assert(dir0.contains(name@) == spec_string_views(dir@).contains(name@));
    }
    if exists {
        let a = m.on_probe(true);
        match a {
            FetchAction::Report(res) => res,
            _ => vstd::pervasive::unreached(),
        }
    } else {
        let _create = m.on_probe(false);
        if !dir_ok {
            let a = m.on_dir_ready(false, fail_reason.to_owned());
            match a {
                FetchAction::Report(res) => res,
                _ => vstd::pervasive::unreached(),
            }
        } else {
            let _download = m.on_dir_ready(true, String::new());
            if dl_ok {
                let a = m.on_download(true, String::new());
                let ghost pre = spec_string_views(dir@);
                dir.push(name.to_owned());
                proof {
                    let post = spec_string_views(dir@);
                    assert(post =~= pre.push(name@));
                    assert forall|x: Seq<char>| post.contains(x) implies dir0.insert(
                        name@,
                    ).contains(x) by {
                        let i = choose|i: int| 0 <= i < post.len() && post[i] == x;
                        if i < pre.len() {
                            assert(pre[i] == x);
                        }
                    }
                    assert forall|x: Seq<char>| dir0.insert(name@).contains(x) implies post
                        .contains(x) by {
                        if pre.contains(x) {
                            let i = choose|i: int| 0 <= i < pre.len() && pre[i] == x;
                            assert(post[i] == x);
                        } else {
                            assert(post[post.len() - 1] == x);
                        }
                    }
                    assert(post.to_set() =~= dir0.insert(name@));
                }
                match a {
                    FetchAction::Report(res) => res,
                    _ => vstd::pervasive::unreached(),
                }
            } else {
                let _remove = m.on_download(false, fail_reason.to_owned());
                let a = m.on_removed();
                proof {
                    assert(spec_string_views(dir@).to_set() =~= dir0.remove(name@));
                }
                match a {
                    FetchAction::Report(res) => res,
                    _ => vstd::pervasive::unreached(),
                }
            }
        }
    }
}

} // verus!
