//! The model hierarchy shown in the side panel: shells, each listing the
//! faces it contains, and per-face visibility.
//!
//! Faces are numbered in the order they are added, and a face's id is its
//! position in the face list; every shell lists the ids of its own faces.
use vstd::prelude::*;

verus! {

/// One face of the loaded model.
pub struct FaceRecord {
    pub id: usize,
    pub shell_id: usize,
    pub name: String,
    pub triangles: usize,
    pub visible: bool,
}

/// One shell of the loaded model and the ids of its faces.
pub struct ShellRecord {
    pub id: usize,
    pub name: String,
    pub expanded: bool,
    pub face_ids: Vec<usize>,
}

/// A face about to be added: its name and its number of triangles.
pub struct NewFace {
    pub name: String,
    pub triangles: usize,
}

/// Face ids are positions in the face list, and every shell lists ids of
/// existing faces that belong to it.
pub open spec fn consistent(faces: Seq<FaceRecord>, shells: Seq<ShellRecord>) -> bool {
    &&& forall|i: int| 0 <= i < faces.len() ==> #[trigger] faces[i].id == i
    &&& forall|s: int, k: int|
        0 <= s < shells.len() && 0 <= k < shells[s].face_ids@.len() ==> {
            let id = #[trigger] shells[s].face_ids@[k];
            &&& id < faces.len()
            &&& faces[id as int].shell_id == shells[s].id
        }
}

/// Position of the first face at or after `i` that belongs to shell
/// `shell_id` and is named `name`.
pub open spec fn find_from(faces: Seq<FaceRecord>, shell_id: usize, name: Seq<char>, i: int) -> Option<usize>
    decreases faces.len() - i,
{
    if i < 0 || i >= faces.len() {
        None
    } else if faces[i].shell_id == shell_id && faces[i].name@ == name {
        Some(i as usize)
    } else {
        find_from(faces, shell_id, name, i + 1)
    }
}

proof fn lemma_find_from_skip(faces: Seq<FaceRecord>, shell_id: usize, name: Seq<char>, i: int, j: int)
    requires
        0 <= i <= j <= faces.len(),
        forall|k: int| i <= k < j ==> !(#[trigger] faces[k].shell_id == shell_id && faces[k].name@ == name),
    ensures
        find_from(faces, shell_id, name, i) == find_from(faces, shell_id, name, j),
    decreases j - i,
{
    if i < j {
        lemma_find_from_skip(faces, shell_id, name, i + 1, j);
    }
}

/// The shells and faces of the loaded model.
pub struct Hierarchy {
    faces: Vec<FaceRecord>,
    shells: Vec<ShellRecord>,
    visibility_changed: bool,
}

impl Hierarchy {
    /// Face ids are positions in the face list, and every shell lists ids of
    /// existing faces that belong to it.
    #[verifier::type_invariant]
    spec fn well_formed(self) -> bool {
        consistent(self.faces@, self.shells@)
    }

    /// The faces, in the order they were added.
    pub closed spec fn face_list(self) -> Seq<FaceRecord> {
        self.faces@
    }

    /// The shells, in the order they were added.
    pub closed spec fn shell_list(self) -> Seq<ShellRecord> {
        self.shells@
    }

    /// Whether a face's visibility changed since it was last taken.
    pub closed spec fn pending_visibility_change(self) -> bool {
        self.visibility_changed
    }

    /// An empty hierarchy.
    pub fn new() -> (h: Hierarchy)
        ensures
            h.face_list() == Seq::<FaceRecord>::empty(),
            h.shell_list() == Seq::<ShellRecord>::empty(),
            !h.pending_visibility_change(),
    {
        Hierarchy { faces: Vec::new(), shells: Vec::new(), visibility_changed: false }
    }

    /// The faces.
    pub fn faces(&self) -> (faces: &Vec<FaceRecord>)
        ensures
            faces@ == self.face_list(),
            consistent(self.face_list(), self.shell_list()),
    {
        proof {
            use_type_invariant(self);
        }
        &self.faces
    }

    /// The shells.
    pub fn shells(&self) -> (shells: &Vec<ShellRecord>)
        ensures
            shells@ == self.shell_list(),
            consistent(self.face_list(), self.shell_list()),
    {
        proof {
            use_type_invariant(self);
        }
        &self.shells
    }

    /// Adds a shell and its faces. The faces get the next free ids, in
    /// order, and are visible; the shell is expanded and lists those ids.
    /// Returns the id of the first new face.
    pub fn add_shell(&mut self, shell_id: usize, shell_name: String, new_faces: &Vec<NewFace>) -> (base: usize)
        requires
            old(self).face_list().len() + new_faces@.len() <= usize::MAX,
        ensures
            base == old(self).face_list().len(),
            final(self).face_list() == old(self).face_list() + Seq::new(
                new_faces@.len(),
                |k: int|
                    FaceRecord {
                        id: (base + k) as usize,
                        shell_id,
                        name: new_faces@[k].name,
                        triangles: new_faces@[k].triangles,
                        visible: true,
                    },
            ),
            final(self).shell_list().len() == old(self).shell_list().len() + 1,
            final(self).shell_list().drop_last() == old(self).shell_list(),
            final(self).shell_list().last().id == shell_id,
            final(self).shell_list().last().name == shell_name,
            final(self).shell_list().last().expanded,
            final(self).shell_list().last().face_ids@ == Seq::new(
                new_faces@.len(),
                |k: int| (base + k) as usize,
            ),
            final(self).pending_visibility_change() == old(self).pending_visibility_change(),
            consistent(final(self).face_list(), final(self).shell_list()),
    {
        proof {
            use_type_invariant(&*self);
        }
        let base = self.faces.len();
        let n = new_faces.len();
        let mut shells: Vec<ShellRecord> = Vec::new();
        std::mem::swap(&mut shells, &mut self.shells);
        let mut faces: Vec<FaceRecord> = Vec::new();
        std::mem::swap(&mut faces, &mut self.faces);
        let mut face_ids: Vec<usize> = Vec::new();
        for idx in 0..n
            invariant
                n == new_faces@.len(),
                base == old(self).faces@.len(),
                base + n <= usize::MAX,
                faces@ == old(self).faces@ + Seq::new(
                    idx as nat,
                    |k: int|
                        FaceRecord {
                            id: (base + k) as usize,
                            shell_id,
                            name: new_faces@[k].name,
                            triangles: new_faces@[k].triangles,
                            visible: true,
                        },
                ),
                face_ids@ == Seq::new(idx as nat, |k: int| (base + k) as usize),
        {
            let global_face_id = base + idx;
            let face = &new_faces[idx];
            faces.push(
                FaceRecord {
                    id: global_face_id,
                    shell_id,
                    name: face.name.clone(),
                    triangles: face.triangles,
                    visible: true,
                },
            );
            face_ids.push(global_face_id);
            assert(faces@ =~= old(self).faces@ + Seq::new(
                (idx + 1) as nat,
                |k: int|
                    FaceRecord {
                        id: (base + k) as usize,
                        shell_id,
                        name: new_faces@[k].name,
                        triangles: new_faces@[k].triangles,
                        visible: true,
                    },
            ));
            assert(face_ids@ =~= Seq::new((idx + 1) as nat, |k: int| (base + k) as usize));
        }
        shells.push(ShellRecord { id: shell_id, name: shell_name, expanded: true, face_ids });
        assert(shells@.drop_last() =~= old(self).shells@);
        proof {
            let fs = faces@;
            let ss = shells@;
            assert forall|s: int, k: int|
                0 <= s < ss.len() && 0 <= k < ss[s].face_ids@.len() implies {
                let id = #[trigger] ss[s].face_ids@[k];
                &&& id < fs.len()
                &&& fs[id as int].shell_id == ss[s].id
            } by {
                if s < ss.len() - 1 {
                    assert(ss[s] == old(self).shells@[s]);
                }
            }
        }
        self.faces = faces;
        self.shells = shells;
        base
    }

    /// Position of the face with id `face_id` in the face list: the first
    /// face whose id matches, which is the face at position `face_id`.
    pub fn face_position(&self, face_id: usize) -> (pos: Option<usize>)
        ensures
            pos == (if face_id < self.face_list().len() { Some(face_id) } else { None::<usize> }),
    {
        proof {
            use_type_invariant(self);
        }
        let n = self.faces.len();
        for i in 0..n
            invariant
                n == self.faces@.len(),
                consistent(self.faces@, self.shells@),
                forall|j: int| 0 <= j < i ==> self.faces@[j].id != face_id,
        {
            if self.faces[i].id == face_id {
                return Some(i);
            }
        }
        if face_id < n {
            assert(self.faces@[face_id as int].id == face_id);
        }
        None
    }

    /// Whether the face with id `face_id` is visible (`None`: no such face).
    pub fn face_visibility(&self, face_id: usize) -> (visible: Option<bool>)
        ensures
            visible == (if face_id < self.face_list().len() {
                Some(self.face_list()[face_id as int].visible)
            } else {
                None::<bool>
            }),
    {
        match self.face_position(face_id) {
            Some(i) => Some(self.faces[i].visible),
            None => None,
        }
    }

    /// Position of the first face of shell `shell_id` named `name`.
    pub fn find_face(&self, shell_id: usize, name: &String) -> (pos: Option<usize>)
        ensures
            pos == find_from(self.face_list(), shell_id, name@, 0),
            match pos {
                Some(i) => {
                    &&& i < self.face_list().len()
                    &&& self.face_list()[i as int].shell_id == shell_id
                    &&& self.face_list()[i as int].name@ == name@
                    &&& forall|j: int| 0 <= j < i ==> !(#[trigger] self.face_list()[j].shell_id
                        == shell_id && self.face_list()[j].name@ == name@)
                },
                None => forall|j: int| 0 <= j < self.face_list().len() ==> !(
                #[trigger] self.face_list()[j].shell_id == shell_id && self.face_list()[j].name@
                    == name@),
            },
    {
        let n = self.faces.len();
        for i in 0..n
            invariant
                n == self.faces@.len(),
                forall|j: int| 0 <= j < i ==> !(#[trigger] self.faces@[j].shell_id == shell_id
                    && self.faces@[j].name@ == name@),
        {
            if self.faces[i].shell_id == shell_id && self.faces[i].name == *name {
                proof {
                    lemma_find_from_skip(self.faces@, shell_id, name@, 0, i as int);
                }
                return Some(i);
            }
        }
        proof {
            lemma_find_from_skip(self.faces@, shell_id, name@, 0, n as int);
        }
        None
    }

    /// Shows or hides the face with id `face_id` (from its checkbox in the
    /// side panel). A change of visibility is recorded until it is taken by
    /// `take_visibility_change`; setting a face to what it already is, or
    /// naming no face, changes nothing.
    pub fn set_face_visible(&mut self, face_id: usize, visible: bool)
        ensures
            final(self).shell_list() == old(self).shell_list(),
            final(self).face_list().len() == old(self).face_list().len(),
            forall|i: int| 0 <= i < old(self).face_list().len() && i != face_id ==>
                #[trigger] final(self).face_list()[i] == old(self).face_list()[i],
            face_id < old(self).face_list().len() ==> {
                let (o, f) = (old(self).face_list()[face_id as int], final(self).face_list()[face_id as int]);
                &&& f.id == o.id && f.shell_id == o.shell_id && f.name == o.name
                &&& f.triangles == o.triangles
                &&& f.visible == visible
            },
            final(self).pending_visibility_change() == (old(self).pending_visibility_change() || (
            face_id < old(self).face_list().len() && old(self).face_list()[face_id as int].visible
                != visible)),
    {
        proof {
            use_type_invariant(&*self);
        }
        if let Some(i) = self.face_position(face_id) {
            if self.faces[i].visible != visible {
                let mut shells: Vec<ShellRecord> = Vec::new();
                std::mem::swap(&mut shells, &mut self.shells);
                let mut faces: Vec<FaceRecord> = Vec::new();
                std::mem::swap(&mut faces, &mut self.faces);
                let ghost before = faces@;
                faces[i].visible = visible;
                assert forall|s: int, k: int|
                    0 <= s < shells@.len() && 0 <= k < shells@[s].face_ids@.len() implies {
                    let id = #[trigger] shells@[s].face_ids@[k];
                    &&& id < faces@.len()
                    &&& faces@[id as int].shell_id == shells@[s].id
                } by {
                    let id = shells@[s].face_ids@[k];
                    assert(before[id as int].shell_id == shells@[s].id);
                }
                self.faces = faces;
                self.shells = shells;
                self.visibility_changed = true;
            }
        }
    }

    /// Whether some face's visibility changed since the last call; clears
    /// the record of the change.
    pub fn take_visibility_change(&mut self) -> (changed: bool)
        ensures
            changed == old(self).pending_visibility_change(),
            !final(self).pending_visibility_change(),
            final(self).face_list() == old(self).face_list(),
            final(self).shell_list() == old(self).shell_list(),
    {
        proof {
            use_type_invariant(&*self);
        }
        let changed = self.visibility_changed;
        self.visibility_changed = false;
        changed
    }

    /// Forgets every shell and face (a new file is being loaded).
    pub fn clear(&mut self)
        ensures
            final(self).face_list() == Seq::<FaceRecord>::empty(),
            final(self).shell_list() == Seq::<ShellRecord>::empty(),
            final(self).pending_visibility_change() == old(self).pending_visibility_change(),
    {
        proof {
            use_type_invariant(&*self);
        }
        self.shells = Vec::new();
        self.faces = Vec::new();
    }
}

} // verus!
