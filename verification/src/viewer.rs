//! The viewer's state: the load in progress, the model hierarchy and the
//! display options, and the decisions that involve more than one of them.
use vstd::prelude::*;
use crate::hierarchy::{find_from, FaceRecord, Hierarchy};
use crate::loader::{LoadJob, LoadSession, SessionView};
use crate::settings::{default_settings, ViewSettings};

verus! {

/// The status line shown at the bottom of the viewport.
#[derive(Clone, Copy, PartialEq, Eq, Structural, Debug)]
pub enum StatusOverlay {
    /// The last load failed; its message is shown.
    Error,
    /// The file is being parsed; the number of shells is not known yet.
    Parsing,
    /// Shell `current` of `total` is being tessellated.
    Tessellating { current: usize, total: usize },
    /// Nothing to report.
    Nothing,
}

/// A shell of the loaded scene, as the colour rebuild sees it: its id,
/// whether the file gives it a colour, and the names of its faces.
pub struct SceneShell {
    pub shell_id: usize,
    pub has_file_color: bool,
    pub face_names: Vec<String>,
}

/// A face mesh whose vertex colours must be recomputed: face `face` of scene
/// shell `shell`, recorded at position `record` of the face list, drawn in
/// its own colour (`colored`) or in neutral grey.
#[derive(Clone, Copy, PartialEq, Eq, Structural, Debug)]
pub struct Recolor {
    pub shell: usize,
    pub face: usize,
    pub record: usize,
    pub colored: bool,
}

/// The recolourings for faces `0 .. n` of scene shell `s`: one for each face
/// that has a record (the first face of that shell with that name).
pub open spec fn recolor_faces(faces: Seq<FaceRecord>, sh: SceneShell, s: int, random: bool, n: int) -> Seq<Recolor>
    decreases n,
{
    if n <= 0 {
        seq![]
    } else {
        recolor_faces(faces, sh, s, random, n - 1) + match find_from(
            faces,
            sh.shell_id,
            sh.face_names@[n - 1]@,
            0,
        ) {
            Some(r) => seq![Recolor { shell: s as usize, face: (n - 1) as usize, record: r, colored: random || sh.has_file_color }],
            None => seq![],
        }
    }
}

/// The recolourings for scene shells `0 .. k`, shell by shell.
pub open spec fn recolor_shells(faces: Seq<FaceRecord>, shells: Seq<SceneShell>, random: bool, k: int) -> Seq<Recolor>
    decreases k,
{
    if k <= 0 {
        seq![]
    } else {
        recolor_shells(faces, shells, random, k - 1) + recolor_faces(
            faces,
            shells[k - 1],
            k - 1,
            random,
            shells[k - 1].face_names@.len() as int,
        )
    }
}

proof fn lemma_find_from_found(faces: Seq<FaceRecord>, shell_id: usize, name: Seq<char>, i: int)
    requires
        faces.len() <= usize::MAX,
    ensures
        match find_from(faces, shell_id, name, i) {
            Some(r) => {
                &&& r < faces.len()
                &&& faces[r as int].shell_id == shell_id
                &&& faces[r as int].name@ == name
            },
            None => true,
        },
    decreases faces.len() - i,
{
    if 0 <= i < faces.len() {
        lemma_find_from_found(faces, shell_id, name, i + 1);
    }
}

/// The face mesh that an entry of the plan recolours is a face of a scene
/// shell, its record is a face of the same shell with the same name, and it
/// is coloured exactly when random colours are on or the file colours the
/// shell.
pub open spec fn recolor_entry_fits(faces: Seq<FaceRecord>, shells: Seq<SceneShell>, random: bool, r: Recolor) -> bool {
    &&& r.shell < shells.len()
    &&& r.face < shells[r.shell as int].face_names@.len()
    &&& r.record < faces.len()
    &&& faces[r.record as int].shell_id == shells[r.shell as int].shell_id
    &&& faces[r.record as int].name@ == shells[r.shell as int].face_names@[r.face as int]@
    &&& r.colored == (random || shells[r.shell as int].has_file_color)
}

proof fn lemma_recolor_faces_entries(
    faces: Seq<FaceRecord>,
    shells: Seq<SceneShell>,
    s: int,
    random: bool,
    n: int,
)
    requires
        faces.len() <= usize::MAX,
        0 <= s < shells.len() <= usize::MAX,
        n <= shells[s].face_names@.len() <= usize::MAX,
    ensures
        forall|x: int| 0 <= x < recolor_faces(faces, shells[s], s, random, n).len() ==> {
            let r = #[trigger] recolor_faces(faces, shells[s], s, random, n)[x];
            &&& r.shell == s
            &&& r.face < n
            &&& recolor_entry_fits(faces, shells, random, r)
        },
    decreases n,
{
    if n > 0 {
        let sh = shells[s];
        lemma_recolor_faces_entries(faces, shells, s, random, n - 1);
        lemma_find_from_found(faces, sh.shell_id, sh.face_names@[n - 1]@, 0);
        let prev = recolor_faces(faces, sh, s, random, n - 1);
        let all = recolor_faces(faces, sh, s, random, n);
        assert forall|x: int| 0 <= x < all.len() implies {
            let r = #[trigger] all[x];
            &&& r.shell == s
            &&& r.face < n
            &&& recolor_entry_fits(faces, shells, random, r)
        } by {
            if x < prev.len() {
                assert(all[x] == prev[x]);
            } else {
                assert(all[x].face == n - 1);
            }
        }
    }
}

/// Every entry of a recolour plan is sound: it names a face of a scene
/// shell, points at a face record of that shell with that face's name, and
/// is coloured exactly when random colours are on or the file gives the
/// shell a colour; and the entries come shell by shell, face by face.
pub proof fn lemma_recolor_plan_entries(
    faces: Seq<FaceRecord>,
    shells: Seq<SceneShell>,
    random: bool,
    k: int,
)
    requires
        faces.len() <= usize::MAX,
        0 <= k <= shells.len() <= usize::MAX,
        forall|i: int| 0 <= i < shells.len() ==> #[trigger] shells[i].face_names@.len() <= usize::MAX,
    ensures
        forall|x: int| 0 <= x < recolor_shells(faces, shells, random, k).len() ==> {
            let r = #[trigger] recolor_shells(faces, shells, random, k)[x];
            &&& r.shell < k
            &&& recolor_entry_fits(faces, shells, random, r)
        },
        forall|x: int, y: int|
            #![trigger recolor_shells(faces, shells, random, k)[x], recolor_shells(faces, shells, random, k)[y]]
            0 <= x < y < recolor_shells(faces, shells, random, k).len() ==> {
                let (a, b) = (recolor_shells(faces, shells, random, k)[x], recolor_shells(faces, shells, random, k)[y]);
                a.shell < b.shell || (a.shell == b.shell && a.face < b.face)
            },
    decreases k,
{
    if k > 0 {
        lemma_recolor_plan_entries(faces, shells, random, k - 1);
        let n = shells[k - 1].face_names@.len() as int;
        lemma_recolor_faces_entries(faces, shells, k - 1, random, n);
        lemma_recolor_faces_ordered(faces, shells[k - 1], k - 1, random, n);
        let prev = recolor_shells(faces, shells, random, k - 1);
        let cur = recolor_faces(faces, shells[k - 1], k - 1, random, n);
        assert(recolor_shells(faces, shells, random, k) == prev + cur);
        assert forall|x: int| 0 <= x < (prev + cur).len() implies {
            let r = #[trigger] (prev + cur)[x];
            &&& r.shell < k
            &&& recolor_entry_fits(faces, shells, random, r)
        } by {
            if x < prev.len() {
                assert((prev + cur)[x] == prev[x]);
            } else {
                assert((prev + cur)[x] == cur[x - prev.len()]);
            }
        }
        assert forall|x: int, y: int| #![trigger (prev + cur)[x], (prev + cur)[y]] 0 <= x < y < (prev + cur).len() implies {
            let (a, b) = ((prev + cur)[x], (prev + cur)[y]);
            a.shell < b.shell || (a.shell == b.shell && a.face < b.face)
        } by {
            if y < prev.len() {
                assert((prev + cur)[x] == prev[x]);
                assert((prev + cur)[y] == prev[y]);
            } else if x < prev.len() {
                assert((prev + cur)[x] == prev[x]);
                assert((prev + cur)[y] == cur[y - prev.len()]);
            } else {
                assert((prev + cur)[x] == cur[x - prev.len()]);
                assert((prev + cur)[y] == cur[y - prev.len()]);
            }
        }
    }
}

proof fn lemma_recolor_faces_ordered(faces: Seq<FaceRecord>, sh: SceneShell, s: int, random: bool, n: int)
    requires
        0 <= s <= usize::MAX,
        n <= usize::MAX,
    ensures
        forall|x: int, y: int| 0 <= x < y < recolor_faces(faces, sh, s, random, n).len() ==>
            (#[trigger] recolor_faces(faces, sh, s, random, n)[x]).face
                < (#[trigger] recolor_faces(faces, sh, s, random, n)[y]).face,
        forall|x: int| 0 <= x < recolor_faces(faces, sh, s, random, n).len() ==>
            (#[trigger] recolor_faces(faces, sh, s, random, n)[x]).face < n
            && recolor_faces(faces, sh, s, random, n)[x].shell == s,
    decreases n,
{
    if n > 0 {
        lemma_recolor_faces_ordered(faces, sh, s, random, n - 1);
        let prev = recolor_faces(faces, sh, s, random, n - 1);
        let all = recolor_faces(faces, sh, s, random, n);
        assert forall|x: int| 0 <= x < all.len() implies (#[trigger] all[x]).face < n && all[x].shell == s by {
            if x < prev.len() {
                assert(all[x] == prev[x]);
            }
        }
        assert forall|x: int, y: int| 0 <= x < y < all.len() implies (#[trigger] all[x]).face
            < (#[trigger] all[y]).face by {
            assert(all[x] == prev[x]);
            if y < prev.len() {
                assert(all[y] == prev[y]);
            }
        }
    }
}

/// What the model hierarchy panel shows.
#[derive(Clone, Copy, PartialEq, Eq, Structural, Debug)]
pub enum HierarchyPanel {
    /// Nothing loaded and nothing loading: an invitation to load a file.
    Prompt,
    /// A load is running and no shell has been added yet.
    Loading,
    /// The shells and their faces.
    Tree,
}

/// The state of the viewer.
pub struct Viewer<P, M, S> {
    pub session: LoadSession<P, M, S>,
    pub hierarchy: Hierarchy,
    pub settings: ViewSettings,
}

/// The status line for a load state: an error takes precedence over the
/// progress of a load.
pub open spec fn status_overlay_spec<P, M, S>(s: SessionView<P, M, S>) -> StatusOverlay {
    if s.error is Some {
        StatusOverlay::Error
    } else {
        match s.job {
            Some(job) => if job.total_shells > 0 {
                StatusOverlay::Tessellating { current: job.current_shell, total: job.total_shells }
            } else {
                StatusOverlay::Parsing
            },
            None => StatusOverlay::Nothing,
        }
    }
}

/// The status line reports an error whenever there is one; otherwise it
/// reports the running load (parsing until the number of shells is known,
/// then the shell being tessellated out of the total), and nothing when no
/// load runs.
pub proof fn lemma_status_overlay_cases<P, M, S>(s: SessionView<P, M, S>)
    ensures
        s.error is Some ==> status_overlay_spec(s) == StatusOverlay::Error,
        s.error is None && s.job is None ==> status_overlay_spec(s) == StatusOverlay::Nothing,
        s.error is None && s.job is Some && s.job->0.total_shells == 0 ==> status_overlay_spec(s)
            == StatusOverlay::Parsing,
        s.error is None && s.job is Some && s.job->0.total_shells > 0 ==> status_overlay_spec(s)
            == (StatusOverlay::Tessellating {
                current: s.job->0.current_shell,
                total: s.job->0.total_shells,
            }),
{
}

impl<P, M, S> Viewer<P, M, S> {
    /// A viewer with nothing loaded and default display options, which
    /// loads `pending_path` if given.
    pub fn new(pending_path: Option<P>) -> (v: Self)
        ensures
            v.session@ == (SessionView::<P, M, S> {
                pending_path,
                loaded_path: None,
                metadata: None,
                error: None,
                job: None,
                scene: None,
            }),
            v.hierarchy.face_list().len() == 0,
            v.hierarchy.shell_list().len() == 0,
            !v.hierarchy.pending_visibility_change(),
            v.settings == default_settings(),
    {
        Viewer { session: LoadSession::new(pending_path), hierarchy: Hierarchy::new(), settings: ViewSettings::default() }
    }

    /// Starts loading the pending path, if there is one, and then also
    /// forgets the shells and faces of the previous model. Returns whether a
    /// load was started.
    pub fn start_pending_load(&mut self) -> (started: bool)
        ensures
            started == old(self).session@.pending_path is Some,
            started ==> final(self).session@ == (SessionView::<P, M, S> {
                pending_path: None,
                loaded_path: None,
                metadata: None,
                error: None,
                job: Some(LoadJob { path: old(self).session@.pending_path->0, current_shell: 0, total_shells: 0 }),
                scene: None,
            }),
            started ==> final(self).hierarchy.face_list().len() == 0
                && final(self).hierarchy.shell_list().len() == 0,
            !started ==> final(self).session@ == old(self).session@
                && final(self).hierarchy.face_list() == old(self).hierarchy.face_list()
                && final(self).hierarchy.shell_list() == old(self).hierarchy.shell_list(),
            final(self).hierarchy.pending_visibility_change() == old(self).hierarchy.pending_visibility_change(),
            final(self).settings == old(self).settings,
    {
        let started = self.session.start_pending_load();
        if started {
            self.hierarchy.clear();
        }
        started
    }

    /// When the face colours must be rebuilt (random colours were toggled)
    /// and a scene is loaded, lists the face meshes to recolour, shell by
    /// shell and face by face; clears the rebuild request in any case.
    /// `scene_shells` describes the shells of the loaded scene, in order.
    pub fn take_recolor_plan(&mut self, scene_shells: &Vec<SceneShell>) -> (plan: Vec<Recolor>)
        ensures
            final(self).settings == (ViewSettings { needs_mesh_rebuild: false, ..old(self).settings }),
            final(self).session@ == old(self).session@,
            final(self).hierarchy.face_list() == old(self).hierarchy.face_list(),
            final(self).hierarchy.shell_list() == old(self).hierarchy.shell_list(),
            final(self).hierarchy.pending_visibility_change() == old(self).hierarchy.pending_visibility_change(),
            plan@ == (if old(self).settings.needs_mesh_rebuild && old(self).session@.scene is Some {
                recolor_shells(
                    old(self).hierarchy.face_list(),
                    scene_shells@,
                    old(self).settings.show_random_colors,
                    scene_shells@.len() as int,
                )
            } else {
                Seq::<Recolor>::empty()
            }),
    {
        let mut plan: Vec<Recolor> = Vec::new();
        if !self.settings.take_mesh_rebuild() {
            return plan;
        }
        if self.session.scene.is_none() {
            return plan;
        }
        let ghost faces = self.hierarchy.face_list();
        let random = self.settings.show_random_colors;
        let n_shells = scene_shells.len();
        for s in 0..n_shells
            invariant
                n_shells == scene_shells@.len(),
                faces == self.hierarchy.face_list(),
                random == self.settings.show_random_colors,
                plan@ == recolor_shells(faces, scene_shells@, random, s as int),
        {
            let shell = &scene_shells[s];
            // File-defined colours always show; random colours only when on.
            let apply_colors = self.settings.shows_face_colors(shell.has_file_color);
            let n_faces = shell.face_names.len();
            for f in 0..n_faces
                invariant
                    n_faces == shell.face_names@.len(),
                    *shell == scene_shells@[s as int],
                    faces == self.hierarchy.face_list(),
                    apply_colors == (random || shell.has_file_color),
                    plan@ == recolor_shells(faces, scene_shells@, random, s as int) + recolor_faces(
                        faces,
                        *shell,
                        s as int,
                        random,
                        f as int,
                    ),
            {
                if let Some(record) = self.hierarchy.find_face(shell.shell_id, &shell.face_names[f]) {
                    plan.push(Recolor { shell: s, face: f, record, colored: apply_colors });
                }
                assert(plan@ =~= recolor_shells(faces, scene_shells@, random, s as int) + recolor_faces(
                    faces,
                    *shell,
                    s as int,
                    random,
                    f + 1,
                ));
            }
        }
        plan
    }

    /// What the model hierarchy panel shows: the tree once there are
    /// shells, otherwise whether a load is running.
    pub fn hierarchy_panel(&self) -> (panel: HierarchyPanel)
        ensures
            panel == (if self.hierarchy.shell_list().len() > 0 {
                HierarchyPanel::Tree
            } else if self.session@.job is Some {
                HierarchyPanel::Loading
            } else {
                HierarchyPanel::Prompt
            }),
    {
        let no_shells = self.hierarchy.shells().len() == 0;
        if no_shells && self.session.job.is_none() {
            HierarchyPanel::Prompt
        } else if no_shells {
            HierarchyPanel::Loading
        } else {
            HierarchyPanel::Tree
        }
    }

    /// The status line to show.
    pub fn status_overlay(&self) -> (overlay: StatusOverlay)
        ensures
            overlay == status_overlay_spec(self.session@),
    {
        if self.session.error.is_some() {
            StatusOverlay::Error
        } else {
            match &self.session.job {
                Some(job) => if job.total_shells > 0 {
                    StatusOverlay::Tessellating { current: job.current_shell, total: job.total_shells }
                } else {
                    StatusOverlay::Parsing
                },
                None => StatusOverlay::Nothing,
            }
        }
    }
}

} // verus!
