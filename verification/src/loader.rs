//! The streaming load of a model file, as a state machine.
//!
//! A load is requested by setting a pending path. Starting it forgets the
//! previous model and opens a job; the loader then reports, in order, the
//! file's metadata, the number of shells, progress, the shells themselves,
//! and finally that it is done or that it failed. Events that arrive once
//! the job has ended are ignored.
use vstd::prelude::*;

verus! {

/// A report from the loader.
pub enum LoadEvent<M, S> {
    /// The file's header metadata.
    Metadata(M),
    /// The number of shells that will be tessellated.
    TotalShells(usize),
    /// Tessellation reached shell `current` of `total`.
    Progress(usize, usize),
    /// A tessellated shell.
    Shell(S),
    /// Every shell has been sent.
    Done,
    /// The load failed with this message.
    Error(String),
}

/// A load in progress.
pub struct LoadJob<P> {
    pub path: P,
    pub current_shell: usize,
    pub total_shells: usize,
}

/// What became of the load after a batch of events.
#[derive(Clone, Copy, PartialEq, Eq, Structural, Debug)]
pub enum LoadStatus {
    /// No load was in progress.
    Idle,
    /// The load is still in progress.
    Loading,
    /// The load completed; the model is ready to be shown.
    Finished,
    /// The load failed; the message is in `error`.
    Failed,
}

/// The load state of the viewer: paths, the file's metadata, the last error,
/// the job in progress and the shells received so far.
pub struct LoadSession<P, M, S> {
    pub pending_path: Option<P>,
    pub loaded_path: Option<P>,
    pub metadata: Option<M>,
    pub error: Option<String>,
    pub job: Option<LoadJob<P>>,
    pub scene: Option<Vec<S>>,
}

/// The load state with the received shells as a sequence.
pub struct SessionView<P, M, S> {
    pub pending_path: Option<P>,
    pub loaded_path: Option<P>,
    pub metadata: Option<M>,
    pub error: Option<String>,
    pub job: Option<LoadJob<P>>,
    pub scene: Option<Seq<S>>,
}

impl<P, M, S> View for LoadSession<P, M, S> {
    type V = SessionView<P, M, S>;

    open spec fn view(&self) -> SessionView<P, M, S> {
        SessionView {
            pending_path: self.pending_path,
            loaded_path: self.loaded_path,
            metadata: self.metadata,
            error: self.error,
            job: self.job,
            scene: match self.scene {
                Some(shells) => Some(shells@),
                None => None,
            },
        }
    }
}

/// The status a batch of events starts from.
pub open spec fn initial_status<P, M, S>(s: SessionView<P, M, S>) -> LoadStatus {
    if s.job is Some { LoadStatus::Loading } else { LoadStatus::Idle }
}

/// The effect of one event. Without a job an event changes nothing.
pub open spec fn step<P, M, S>(
    st: (SessionView<P, M, S>, LoadStatus),
    e: LoadEvent<M, S>,
) -> (SessionView<P, M, S>, LoadStatus) {
    let (s, status) = st;
    match s.job {
        None => st,
        Some(job) => match e {
            LoadEvent::Metadata(m) => (SessionView { metadata: Some(m), ..s }, status),
            LoadEvent::TotalShells(total) => (
                SessionView { job: Some(LoadJob { total_shells: total, ..job }), ..s },
                status,
            ),
            LoadEvent::Progress(current, _) => (
                SessionView { job: Some(LoadJob { current_shell: current, ..job }), ..s },
                status,
            ),
            LoadEvent::Shell(shell) => (
                SessionView {
                    scene: Some(
                        match s.scene {
                            Some(shells) => shells.push(shell),
                            None => seq![shell],
                        },
                    ),
                    ..s
                },
                status,
            ),
            LoadEvent::Done => (
                SessionView { loaded_path: Some(job.path), job: None, ..s },
                LoadStatus::Finished,
            ),
            LoadEvent::Error(err) => (
                SessionView { error: Some(err), job: None, ..s },
                LoadStatus::Failed,
            ),
        },
    }
}

/// The effect of a sequence of events, in order.
pub open spec fn run<P, M, S>(
    st: (SessionView<P, M, S>, LoadStatus),
    es: Seq<LoadEvent<M, S>>,
) -> (SessionView<P, M, S>, LoadStatus)
    decreases es.len(),
{
    if es.len() == 0 {
        st
    } else {
        step(run(st, es.drop_last()), es.last())
    }
}

/// Handling a batch of events in two parts, one after the other, has the
/// same effect as handling it at once: it does not matter how the events
/// are split over the frames in which they are collected.
pub proof fn lemma_run_in_batches<P, M, S>(
    st: (SessionView<P, M, S>, LoadStatus),
    a: Seq<LoadEvent<M, S>>,
    b: Seq<LoadEvent<M, S>>,
)
    ensures
        run(st, a + b) == run(run(st, a), b),
    decreases b.len(),
{
    if b.len() == 0 {
        assert(a + b =~= a);
    } else {
        assert((a + b).drop_last() =~= a + b.drop_last());
        assert((a + b).last() == b.last());
        lemma_run_in_batches(st, a, b.drop_last());
    }
}

/// Once no job is in progress (the load has not started, is done, or
/// failed), further events change nothing.
pub proof fn lemma_run_without_job<P, M, S>(
    st: (SessionView<P, M, S>, LoadStatus),
    es: Seq<LoadEvent<M, S>>,
)
    requires
        st.0.job is None,
    ensures
        run(st, es) == st,
    decreases es.len(),
{
    if es.len() > 0 {
        lemma_run_without_job(st, es.drop_last());
    }
}

/// Each event changes only what it reports on; the pending path is never
/// touched:
/// - only `Metadata` sets the metadata, to the metadata it carries; every
///   other event (`Done` among them) keeps the metadata received so far;
/// - only `Shell` changes the shells, by appending its shell;
/// - only `Error` sets the error, to its message;
/// - only `Done` sets the loaded path, to the path of the job it ends;
/// - `TotalShells` and `Progress` set the shell count and the current shell
///   of the job, `Done` and `Error` close it, the others leave it;
/// - only `Done` and `Error` change the status, to finished and failed;
/// - without a running job an event changes nothing.
pub proof fn lemma_event_changes_only_its_part<P, M, S>(
    st: (SessionView<P, M, S>, LoadStatus),
    e: LoadEvent<M, S>,
)
    ensures
        step(st, e).0.pending_path == st.0.pending_path,
        !(e is Metadata) ==> step(st, e).0.metadata == st.0.metadata,
        (e is Metadata && st.0.job is Some) ==> step(st, e).0.metadata == Some(e->Metadata_0),
        !(e is Shell) ==> step(st, e).0.scene == st.0.scene,
        (e is Shell && st.0.job is Some) ==> step(st, e).0.scene == Some(
            received(st.0.scene).push(e->Shell_0),
        ),
        !(e is Error) ==> step(st, e).0.error == st.0.error,
        (e is Error && st.0.job is Some) ==> step(st, e).0.error == Some(e->Error_0),
        !(e is Done) ==> step(st, e).0.loaded_path == st.0.loaded_path,
        (e is Done && st.0.job is Some) ==> step(st, e).0.loaded_path == Some(st.0.job->0.path),
        (e is TotalShells && st.0.job is Some) ==> step(st, e).0.job == Some(
            LoadJob { total_shells: e->TotalShells_0, ..st.0.job->0 },
        ),
        (e is Progress && st.0.job is Some) ==> step(st, e).0.job == Some(
            LoadJob { current_shell: e->Progress_0, ..st.0.job->0 },
        ),
        !(e is TotalShells || e is Progress || e is Done || e is Error) ==> step(st, e).0.job == st.0.job,
        ((e is Done || e is Error) && st.0.job is Some) ==> step(st, e).0.job is None,
        !(e is Done || e is Error) ==> step(st, e).1 == st.1,
        (e is Done && st.0.job is Some) ==> step(st, e).1 == LoadStatus::Finished,
        (e is Error && st.0.job is Some) ==> step(st, e).1 == LoadStatus::Failed,
        st.0.job is None ==> step(st, e) == st,
{
    match e {
        LoadEvent::Shell(sh) => {
            if st.0.job is Some {
                match st.0.scene {
                    Some(shells) => {},
                    None => {
                        assert(seq![sh] =~= Seq::<S>::empty().push(sh));
                    },
                }
            }
        },
        _ => {},
    }
}

/// The metadata after a batch of events that carries no `Metadata` event
/// is the metadata before it: ending the load, by `Done` or by an error,
/// keeps the file's metadata.
pub proof fn lemma_metadata_kept_without_metadata_event<P, M, S>(
    st: (SessionView<P, M, S>, LoadStatus),
    es: Seq<LoadEvent<M, S>>,
)
    requires
        forall|i: int| 0 <= i < es.len() ==> !(#[trigger] es[i] is Metadata),
    ensures
        run(st, es).0.metadata == st.0.metadata,
    decreases es.len(),
{
    if es.len() > 0 {
        lemma_metadata_kept_without_metadata_event(st, es.drop_last());
        assert(!(es[es.len() - 1] is Metadata));
        lemma_event_changes_only_its_part(run(st, es.drop_last()), es.last());
    }
}

/// The event ends the load.
pub open spec fn ends_load<M, S>(e: LoadEvent<M, S>) -> bool {
    e is Done || e is Error
}

/// The shells carried by a sequence of events, in order.
pub open spec fn shells_of<M, S>(es: Seq<LoadEvent<M, S>>) -> Seq<S>
    decreases es.len(),
{
    if es.len() == 0 {
        seq![]
    } else {
        shells_of(es.drop_last()) + match es.last() {
            LoadEvent::Shell(s) => seq![s],
            _ => seq![],
        }
    }
}

/// The shells received so far (none before the first one arrives).
pub open spec fn received<S>(scene: Option<Seq<S>>) -> Seq<S> {
    match scene {
        Some(shells) => shells,
        None => seq![],
    }
}

/// While a load runs, shells are kept in the order they arrive, the job
/// stays on the same path, and the scene exists as soon as one shell has
/// arrived.
pub proof fn lemma_shells_kept_in_order<P, M, S>(
    st: (SessionView<P, M, S>, LoadStatus),
    es: Seq<LoadEvent<M, S>>,
)
    requires
        st.0.job is Some,
        forall|i: int| 0 <= i < es.len() ==> !ends_load(#[trigger] es[i]),
    ensures
        run(st, es).0.job is Some,
        run(st, es).0.job->0.path == st.0.job->0.path,
        run(st, es).1 == st.1,
        received(run(st, es).0.scene) == received(st.0.scene) + shells_of(es),
        run(st, es).0.scene is None <==> (st.0.scene is None && shells_of(es).len() == 0),
    decreases es.len(),
{
    if es.len() > 0 {
        lemma_shells_kept_in_order(st, es.drop_last());
        let prev = run(st, es.drop_last());
        assert(!ends_load(es[es.len() - 1]));
        match es.last() {
            LoadEvent::Shell(s) => {
                assert(received(run(st, es).0.scene) =~= received(prev.0.scene).push(s));
                assert(received(st.0.scene) + shells_of(es) =~= received(st.0.scene) + shells_of(
                    es.drop_last(),
                ) + seq![s]);
            },
            _ => {
                assert(shells_of(es) =~= shells_of(es.drop_last()));
            },
        }
    }
}

/// A load that runs to its end loads the path it was started on: when every
/// event but the last leaves the load running and the last one is `Done`,
/// the job is closed, the loaded path is the job's path and the load is
/// reported finished; the shells received are those of the events, in order.
pub proof fn lemma_done_loads_job_path<P, M, S>(
    st: (SessionView<P, M, S>, LoadStatus),
    es: Seq<LoadEvent<M, S>>,
)
    requires
        st.0.job is Some,
        es.len() > 0,
        es.last() is Done,
        forall|i: int| 0 <= i < es.len() - 1 ==> !ends_load(#[trigger] es[i]),
    ensures
        run(st, es).0.job is None,
        run(st, es).0.loaded_path == Some(st.0.job->0.path),
        run(st, es).1 == LoadStatus::Finished,
        received(run(st, es).0.scene) == received(st.0.scene) + shells_of(es.drop_last()),
{
    let init = es.drop_last();
    assert forall|i: int| 0 <= i < init.len() implies !ends_load(#[trigger] init[i]) by {
        assert(init[i] == es[i]);
    }
    lemma_shells_kept_in_order(st, init);
}

impl<P, M, S> LoadSession<P, M, S> {
    /// A session with nothing loaded, which loads `pending_path` if given.
    pub fn new(pending_path: Option<P>) -> (s: Self)
        ensures
            s@ == (SessionView::<P, M, S> {
                pending_path,
                loaded_path: None,
                metadata: None,
                error: None,
                job: None,
                scene: None,
            }),
    {
        LoadSession {
            pending_path,
            loaded_path: None,
            metadata: None,
            error: None,
            job: None,
            scene: None,
        }
    }

    /// Asks for `path` to be loaded (a file was picked).
    pub fn open_file(&mut self, path: P)
        ensures
            final(self)@ == (SessionView { pending_path: Some(path), ..old(self)@ }),
    {
        self.pending_path = Some(path);
    }

    /// Starts loading the pending path, if there is one: forgets the
    /// metadata, the loaded path, the last error and the received shells,
    /// and opens a job on the path with no progress. Returns whether a load
    /// was started.
    pub fn start_pending_load(&mut self) -> (started: bool)
        ensures
            started == old(self)@.pending_path is Some,
            started ==> final(self)@ == (SessionView::<P, M, S> {
                pending_path: None,
                loaded_path: None,
                metadata: None,
                error: None,
                job: Some(LoadJob { path: old(self)@.pending_path->0, current_shell: 0, total_shells: 0 }),
                scene: None,
            }),
            !started ==> final(self)@ == old(self)@,
    {
        match self.pending_path.take() {
            Some(path) => {
                self.metadata = None;
                self.loaded_path = None;
                self.error = None;
                self.scene = None;
                self.job = Some(LoadJob { path, current_shell: 0, total_shells: 0 });
                true
            },
            None => false,
        }
    }

    /// The path being loaded.
    pub fn job_path(&self) -> (path: Option<&P>)
        ensures
            path == (match self@.job {
                Some(job) => Some(&job.path),
                None => None,
            }),
    {
        match &self.job {
            Some(job) => Some(&job.path),
            None => None,
        }
    }

    fn handle_event(&mut self, e: LoadEvent<M, S>, status: LoadStatus) -> (next: LoadStatus)
        requires
            old(self)@.job is Some,
        ensures
            (final(self)@, next) == step((old(self)@, status), e),
    {
        let mut job = self.job.take().unwrap();
        match e {
            LoadEvent::Metadata(m) => {
                self.metadata = Some(m);
                self.job = Some(job);
                status
            },
            LoadEvent::TotalShells(total) => {
                job.total_shells = total;
                self.job = Some(job);
                status
            },
            LoadEvent::Progress(current, _total) => {
                job.current_shell = current;
                self.job = Some(job);
                status
            },
            LoadEvent::Shell(shell) => {
                // Keep the shell; the meshes are built once the whole scene
                // and its bounds are known.
                match self.scene.take() {
                    Some(mut shells) => {
                        shells.push(shell);
                        self.scene = Some(shells);
                    },
                    None => {
                        let mut shells: Vec<S> = Vec::new();
                        shells.push(shell);
                        self.scene = Some(shells);
                    },
                }
                self.job = Some(job);
                status
            },
            LoadEvent::Done => {
                self.loaded_path = Some(job.path);
                LoadStatus::Finished
            },
            LoadEvent::Error(err) => {
                self.error = Some(err);
                LoadStatus::Failed
            },
        }
    }

    /// Handles the events collected since the last frame, in order, until
    /// the load ends; the events after its end are dropped. Returns what
    /// became of the load.
    pub fn handle_events(&mut self, events: Vec<LoadEvent<M, S>>) -> (status: LoadStatus)
        ensures
            (final(self)@, status) == run((old(self)@, initial_status(old(self)@)), events@),
    {
        let ghost init = (self@, initial_status(self@));
        let mut status = if self.job.is_some() {
            LoadStatus::Loading
        } else {
            LoadStatus::Idle
        };
        let mut rest = events;
        let ghost mut done: Seq<LoadEvent<M, S>> = Seq::empty();
        assert(done + rest@ =~= events@);
        while rest.len() > 0 && self.job.is_some()
            invariant
                done + rest@ == events@,
                (self@, status) == run(init, done),
            decreases rest@.len(),
        {
            let e = rest.remove(0);
            proof {
                assert((done.push(e)).drop_last() =~= done);
                done = done.push(e);
                assert(done + rest@ =~= events@);
            }
            status = self.handle_event(e, status);
        }
        proof {
            lemma_run_in_batches(init, done, rest@);
            if rest@.len() > 0 {
                lemma_run_without_job(run(init, done), rest@);
            } else {
                assert(done =~= events@);
            }
        }
        status
    }
}

/// `std::path::PathBuf`, the type of the paths the viewer loads; Verus sees
/// nothing inside it.
#[verifier::external_type_specification]
#[verifier::external_body]
pub struct ExPathBuf(std::path::PathBuf);

/// `<std::path::PathBuf as Clone>::clone`.
///
/// Trusted: cloning a path gives the same path (std's `Clone` for `PathBuf`
/// clones the underlying `OsString`, byte for byte).
pub assume_specification[ <std::path::PathBuf as Clone>::clone ](p: &std::path::PathBuf) -> (res: std::path::PathBuf)
    ensures
        res == *p,
;

impl<M, S> LoadSession<std::path::PathBuf, M, S> {
    /// Reloads the current file after the tessellation quality changed:
    /// when the quality slider is not being dragged, the quality differs
    /// from the one the file was loaded with, a file is loaded and no load
    /// is in progress, the loaded path becomes pending again.
    pub fn request_reload(&mut self, slider_dragged: bool, quality_changed: bool)
        ensures
            (!slider_dragged && quality_changed && old(self)@.loaded_path is Some
                && old(self)@.job is None) ==> final(self)@ == (SessionView {
                pending_path: old(self)@.loaded_path,
                ..old(self)@
            }),
            !(!slider_dragged && quality_changed && old(self)@.loaded_path is Some
                && old(self)@.job is None) ==> final(self)@ == old(self)@,
    {
        if !slider_dragged && quality_changed && self.job.is_none() {
            match &self.loaded_path {
                Some(path) => {
                    self.pending_path = Some(path.clone());
                },
                None => {},
            }
        }
    }
}

} // verus!
