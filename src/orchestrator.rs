//! The protocol that turns a "download this URL" job into files imported into
//! the library, added to the play queue and recorded once in the downloads
//! playlist.
//!
//! An [`Orchestration`] decides; its driver performs each [`Action`] against the
//! music server or the download utility and reports the outcome back through the
//! method that matches the current [`Phase`].
use vstd::prelude::*;

use crate::config::{download_dir_name, downloads_dir_spec, RESCAN_TIME};
use crate::uri::{is_listed, library_uri, listed, uri_spec, views};

verus! {

/// One music-server command of the import step.
#[derive(Debug)]
pub enum ImportStep {
    /// Append the URI to the play queue.
    AddToQueue(String),
    /// Append the URI to the downloads playlist.
    AddToPlaylist(String),
}

impl View for ImportStep {
    /// Whether the command targets the downloads playlist, and its URI.
    type V = (bool, Seq<char>);

    open spec fn view(&self) -> (bool, Seq<char>) {
        match self {
            ImportStep::AddToQueue(u) => (false, u@),
            ImportStep::AddToPlaylist(u) => (true, u@),
        }
    }
}

/// The views of a list of import commands.
pub open spec fn step_views(s: Seq<ImportStep>) -> Seq<(bool, Seq<char>)> {
    s.map_values(|c: ImportStep| c@)
}

/// The commands for one file with library URI `uri`: always queue it, and add
/// it to the playlist only when no entry of `snapshot` holds it.
pub open spec fn file_steps(snapshot: Seq<Seq<char>>, uri: Seq<char>) -> Seq<(bool, Seq<char>)> {
    if listed(snapshot, uri) {
        seq![(false, uri)]
    } else {
        seq![(false, uri), (true, uri)]
    }
}

/// The commands that import `files` of directory `dir`, in the order given.
pub open spec fn import_plan_spec(
    snapshot: Seq<Seq<char>>,
    dir: Seq<char>,
    files: Seq<Seq<char>>,
) -> Seq<(bool, Seq<char>)>
    decreases files.len(),
{
    if files.len() == 0 {
        Seq::empty()
    } else {
        import_plan_spec(snapshot, dir, files.drop_last()) + file_steps(
            snapshot,
            uri_spec(dir, files.last()),
        )
    }
}

/// A URI already held by the downloads playlist is never added to it again:
/// every playlist command of a plan names a URI that no entry of the snapshot
/// holds.
pub proof fn plan_adds_only_unlisted(snapshot: Seq<Seq<char>>, dir: Seq<char>, files: Seq<Seq<char>>)
    ensures
        forall|k: int|
            0 <= k < import_plan_spec(snapshot, dir, files).len() && (#[trigger] import_plan_spec(
                snapshot,
                dir,
                files,
            )[k]).0 ==> !listed(snapshot, import_plan_spec(snapshot, dir, files)[k].1),
    decreases files.len(),
{
    if files.len() > 0 {
        let prev = import_plan_spec(snapshot, dir, files.drop_last());
        let last = file_steps(snapshot, uri_spec(dir, files.last()));
        plan_adds_only_unlisted(snapshot, dir, files.drop_last());
        assert forall|k: int| prev.len() <= k < prev.len() + last.len() && (#[trigger] (prev
            + last)[k]).0 implies !listed(snapshot, (prev + last)[k].1) by {
            assert((prev + last)[k] == last[k - prev.len()]);
        }
        assert forall|k: int| 0 <= k < prev.len() implies #[trigger] (prev + last)[k] == prev[k] by {
        }
    }
}

/// Downloading again a file whose URI the playlist already holds queues it for
/// playback and leaves the playlist as it is.
pub proof fn redownload_only_queues(snapshot: Seq<Seq<char>>, dir: Seq<char>, file: Seq<char>)
    requires
        listed(snapshot, uri_spec(dir, file)),
    ensures
        import_plan_spec(snapshot, dir, seq![file]) == seq![(false, uri_spec(dir, file))],
{
    let one = seq![file];
    assert(one.drop_last() =~= Seq::<Seq<char>>::empty());
    assert(one.last() == file);
    assert(import_plan_spec(snapshot, dir, one.drop_last()) == Seq::<(bool, Seq<char>)>::empty());
    assert(import_plan_spec(snapshot, dir, seq![file]) =~= seq![(false, uri_spec(dir, file))]);
}

/// The commands that import `files`, written into directory `dir`, given the
/// playlist entries `snapshot` known before the download.
pub fn import_plan(snapshot: &Vec<String>, dir: &str, files: &Vec<String>) -> (r: Vec<ImportStep>)
    ensures
        step_views(r@) == import_plan_spec(views(snapshot@), dir@, views(files@)),
{
    let mut r: Vec<ImportStep> = Vec::new();
    let mut i: usize = 0;
    while i < files.len()
        invariant
            i <= files@.len(),
            step_views(r@) == import_plan_spec(views(snapshot@), dir@, views(files@).take(i as int)),
        decreases files@.len() - i,
    {
        let uri = library_uri(dir, files[i].as_str());
        let known = is_listed(snapshot, uri.as_str());
        let ghost before = r@;
        r.push(ImportStep::AddToQueue(uri.clone()));
        if !known {
            r.push(ImportStep::AddToPlaylist(uri));
        }
        proof {
            let fs = views(files@).take(i + 1);
            assert(fs.drop_last() =~= views(files@).take(i as int));
            assert(fs.last() == files@[i as int]@);
            assert(step_views(r@) =~= step_views(before) + file_steps(views(snapshot@), uri@));
        }
        i = i + 1;
    }
    assert(views(files@).take(files@.len() as int) =~= views(files@));
    r
}

/// Where an orchestration stands, that is which outcome it waits for.
#[derive(Debug, Clone, Copy, PartialEq, Eq, Structural)]
pub enum Phase {
    /// Waits for the downloads playlist's entries.
    Fetching,
    /// Waits for the download utility's list of files.
    Downloading,
    /// Waits for the rescan command's outcome.
    Rescanning,
    /// Waits for the settle delay to pass.
    Settling,
    /// Waits for the outcome of an import command.
    Importing,
    /// Finished; nothing more is asked.
    Done,
}

/// Why a download job failed.
#[derive(Debug, Clone, Copy, PartialEq, Eq, Structural)]
pub enum DownloadError {
    /// The download utility failed or its output could not be read.
    Download,
    /// A music-server command failed.
    Server,
}

/// What the driver of an orchestration does next.
#[derive(Debug)]
pub enum Action {
    /// Fetch the entries of the downloads playlist.
    FetchPlaylist,
    /// Run the download utility on `url` inside the library subdirectory `dir`.
    RunDownload { url: String, dir: String },
    /// Ask the music server to rescan `uri`.
    Rescan { uri: String },
    /// Wait `secs` seconds for the rescan to settle.
    Settle { secs: u64 },
    /// Issue this command to the music server.
    Import(ImportStep),
    /// The job is over, with this outcome.
    Finished(Result<(), DownloadError>),
}

/// The state of one download job.
pub struct Orchestration {
    url: String,
    snapshot: Vec<String>,
    plan: Vec<ImportStep>,
    next: usize,
    phase: Phase,
}

impl Orchestration {
    /// The URL being downloaded.
    pub closed spec fn url_spec(&self) -> Seq<char> {
        self.url@
    }

    /// The playlist entries known before the download.
    pub closed spec fn snapshot_spec(&self) -> Seq<Seq<char>> {
        views(self.snapshot@)
    }

    /// The import commands, once the files are known.
    pub closed spec fn plan_spec(&self) -> Seq<(bool, Seq<char>)> {
        step_views(self.plan@)
    }

    /// How many import commands have been handed out.
    pub closed spec fn issued(&self) -> nat {
        self.next as nat
    }

    /// The current phase.
    pub closed spec fn phase_spec(&self) -> Phase {
        self.phase
    }

    /// No more commands are handed out than were planned.
    pub closed spec fn wf(&self) -> bool {
        self.next <= self.plan@.len()
    }

    /// Begins the job for `url`: first the playlist is fetched.
    pub fn start(url: String) -> (r: (Orchestration, Action))
        ensures
            r.0.wf(),
            r.0.phase_spec() == Phase::Fetching,
            r.0.url_spec() == url@,
            r.1 is FetchPlaylist,
    {
        let o = Orchestration {
            url,
            snapshot: Vec::new(),
            plan: Vec::new(),
            next: 0,
            phase: Phase::Fetching,
        };
        (o, Action::FetchPlaylist)
    }

    /// The current phase.
    pub fn phase(&self) -> (r: Phase)
        ensures
            r == self.phase_spec(),
    {
        self.phase
    }

    /// Takes the playlist's entries, or `None` where they could not be
    /// fetched, which counts as an empty playlist; then the download runs.
    pub fn on_playlist(&mut self, entries: Option<Vec<String>>) -> (r: Action)
        requires
            old(self).wf(),
            old(self).phase_spec() == Phase::Fetching,
        ensures
            final(self).wf(),
            final(self).phase_spec() == Phase::Downloading,
            final(self).url_spec() == old(self).url_spec(),
            final(self).snapshot_spec() == match entries {
                Some(e) => views(e@),
                None => Seq::<Seq<char>>::empty(),
            },
            r matches Action::RunDownload { url, dir } && url@ == old(self).url_spec() && dir@
                == downloads_dir_spec(),
    {
        match entries {
            Some(e) => {
                self.snapshot = e;
            },
            None => {
                self.snapshot = Vec::new();
            },
        }
        self.phase = Phase::Downloading;
        Action::RunDownload { url: self.url.clone(), dir: download_dir_name() }
    }

    /// Takes the downloaded files' names, in the order reported, or `None`
    /// where the download failed, which ends the job.
    pub fn on_download(&mut self, files: Option<Vec<String>>) -> (r: Action)
        requires
            old(self).wf(),
            old(self).phase_spec() == Phase::Downloading,
        ensures
            final(self).wf(),
            final(self).url_spec() == old(self).url_spec(),
            final(self).snapshot_spec() == old(self).snapshot_spec(),
            files is None ==> r == Action::Finished(Err(DownloadError::Download))
                && final(self).phase_spec() == Phase::Done,
            files matches Some(f) ==> (final(self).phase_spec() == Phase::Rescanning
                && final(self).plan_spec() == import_plan_spec(
                old(self).snapshot_spec(),
                downloads_dir_spec(),
                views(f@),
            ) && final(self).issued() == 0),
            files is Some ==> (r matches Action::Rescan { uri } && uri@ == downloads_dir_spec()),
    {
        match files {
            None => {
                self.phase = Phase::Done;
                Action::Finished(Err(DownloadError::Download))
            },
            Some(f) => {
                let dir = download_dir_name();
                self.plan = import_plan(&self.snapshot, dir.as_str(), &f);
                self.next = 0;
                self.phase = Phase::Rescanning;
                Action::Rescan { uri: dir }
            },
        }
    }

    /// Takes the rescan's outcome; a failure ends the job.
    pub fn on_rescan(&mut self, ok: bool) -> (r: Action)
        requires
            old(self).wf(),
            old(self).phase_spec() == Phase::Rescanning,
        ensures
            final(self).wf(),
            final(self).plan_spec() == old(self).plan_spec(),
            final(self).issued() == old(self).issued(),
            !ok ==> r == Action::Finished(Err(DownloadError::Server))
                && final(self).phase_spec() == Phase::Done,
            ok ==> r == (Action::Settle { secs: RESCAN_TIME }) && final(self).phase_spec()
                == Phase::Settling,
    {
        if ok {
            self.phase = Phase::Settling;
            Action::Settle { secs: RESCAN_TIME }
        } else {
            self.phase = Phase::Done;
            Action::Finished(Err(DownloadError::Server))
        }
    }

    /// Whether `r` hands out the next planned command of `o`, or ends the job
    /// successfully where none is left, and `p` is `o` after that.
    pub open spec fn advanced(o: Orchestration, p: Orchestration, r: Action) -> bool {
        &&& p.wf()
        &&& p.plan_spec() == o.plan_spec()
        &&& if o.issued() < o.plan_spec().len() {
            &&& r matches Action::Import(c) && c@ == o.plan_spec()[o.issued() as int]
            &&& p.issued() == o.issued() + 1
            &&& p.phase_spec() == Phase::Importing
        } else {
            &&& r == Action::Finished(Ok(()))
            &&& p.phase_spec() == Phase::Done
        }
    }

    fn advance(&mut self) -> (r: Action)
        requires
            old(self).wf(),
        ensures
            Self::advanced(*old(self), *final(self), r),
    {
        if self.next < self.plan.len() {
            let c = match &self.plan[self.next] {
                ImportStep::AddToQueue(u) => ImportStep::AddToQueue(u.clone()),
                ImportStep::AddToPlaylist(u) => ImportStep::AddToPlaylist(u.clone()),
            };
            assert(step_views(self.plan@)[self.next as int] == self.plan@[self.next as int]@);
            self.next = self.next + 1;
            self.phase = Phase::Importing;
            Action::Import(c)
        } else {
            self.phase = Phase::Done;
            Action::Finished(Ok(()))
        }
    }

    /// The settle delay has passed: the first import command follows.
    pub fn on_settled(&mut self) -> (r: Action)
        requires
            old(self).wf(),
            old(self).phase_spec() == Phase::Settling,
        ensures
            Self::advanced(*old(self), *final(self), r),
    {
        self.advance()
    }

    /// Takes the outcome of the last import command; a failure ends the job
    /// and leaves the remaining commands unissued.
    pub fn on_command(&mut self, ok: bool) -> (r: Action)
        requires
            old(self).wf(),
            old(self).phase_spec() == Phase::Importing,
        ensures
            !ok ==> r == Action::Finished(Err(DownloadError::Server))
                && final(self).phase_spec() == Phase::Done && final(self).wf(),
            ok ==> Self::advanced(*old(self), *final(self), r),
    {
        if ok {
            self.advance()
        } else {
            self.phase = Phase::Done;
            Action::Finished(Err(DownloadError::Server))
        }
    }
}

} // verus!
