//! The viewport's display toggles and modes.
use vstd::prelude::*;

verus! {

/// How the axes are shown: as lines through the world origin, or as a small
/// triad in a corner of the viewport.
#[derive(Clone, Copy, PartialEq, Eq, Structural, Debug)]
pub enum AxesMode {
    World,
    ScreenTriad,
}

/// What a click in the viewport picks.
#[derive(Clone, Copy, PartialEq, Eq, Structural, Debug)]
pub enum SelectionMode {
    Point,
    Edge,
    Face,
}

/// A coordinate plane on which a grid can be drawn.
#[derive(Clone, Copy, PartialEq, Eq, Structural, Debug)]
pub enum GridPlane {
    XY,
    YZ,
    XZ,
}

/// A toolbar button that switches one display option on or off.
#[derive(Clone, Copy, PartialEq, Eq, Structural, Debug)]
pub enum Toggle {
    RandomColors,
    BoundingBox,
    Wireframe,
    Axes,
    Grids,
    ScaleRuler,
}

/// The display options of the viewport.
pub struct ViewSettings {
    pub show_random_colors: bool,
    pub show_bounding_box: bool,
    pub show_wireframe: bool,
    pub show_axes: bool,
    pub axes_mode: AxesMode,
    pub show_grids: bool,
    pub show_grid_xy: bool,
    pub show_grid_yz: bool,
    pub show_grid_xz: bool,
    pub show_scale_ruler: bool,
    pub selection_mode: SelectionMode,
    /// The face colours must be recomputed (random colours were toggled).
    pub needs_mesh_rebuild: bool,
}

/// The display options a viewer starts with: axes as a screen triad, all
/// grids and the scale ruler shown, face selection, and random colours, the
/// bounding box and the wireframe off.
pub open spec fn default_settings() -> ViewSettings {
    ViewSettings {
        show_random_colors: false,
        show_bounding_box: false,
        show_wireframe: false,
        show_axes: true,
        axes_mode: AxesMode::ScreenTriad,
        show_grids: true,
        show_grid_xy: true,
        show_grid_yz: true,
        show_grid_xz: true,
        show_scale_ruler: true,
        selection_mode: SelectionMode::Face,
        needs_mesh_rebuild: false,
    }
}

impl Default for ViewSettings {
    /// The options of `default_settings`.
    fn default() -> (s: Self)
        ensures
            s == default_settings(),
    {
        ViewSettings {
            show_random_colors: false,
            show_bounding_box: false,
            show_wireframe: false,
            show_axes: true,
            axes_mode: AxesMode::ScreenTriad,
            show_grids: true,
            show_grid_xy: true,
            show_grid_yz: true,
            show_grid_xz: true,
            show_scale_ruler: true,
            selection_mode: SelectionMode::Face,
            needs_mesh_rebuild: false,
        }
    }
}

/// The settings after pressing toggle button `t`: the option flips, and
/// flipping random colours also asks for the face colours to be rebuilt.
pub open spec fn toggled_settings(s: ViewSettings, t: Toggle) -> ViewSettings {
    match t {
        Toggle::RandomColors => ViewSettings {
            show_random_colors: !s.show_random_colors,
            needs_mesh_rebuild: true,
            ..s
        },
        Toggle::BoundingBox => ViewSettings { show_bounding_box: !s.show_bounding_box, ..s },
        Toggle::Wireframe => ViewSettings { show_wireframe: !s.show_wireframe, ..s },
        Toggle::Axes => ViewSettings { show_axes: !s.show_axes, ..s },
        Toggle::Grids => ViewSettings { show_grids: !s.show_grids, ..s },
        Toggle::ScaleRuler => ViewSettings { show_scale_ruler: !s.show_scale_ruler, ..s },
    }
}

/// The grid planes that are switched on, in the order XY, YZ, XZ.
pub open spec fn grid_planes_spec(s: ViewSettings) -> Seq<GridPlane> {
    (if s.show_grid_xy { seq![GridPlane::XY] } else { seq![] }) + (if s.show_grid_yz {
        seq![GridPlane::YZ]
    } else {
        seq![]
    }) + (if s.show_grid_xz { seq![GridPlane::XZ] } else { seq![] })
}

impl ViewSettings {
    /// Presses toggle button `t`.
    pub fn toggle(&mut self, t: Toggle)
        ensures
            *final(self) == toggled_settings(*old(self), t),
    {
        match t {
            Toggle::RandomColors => {
                self.show_random_colors = !self.show_random_colors;
                self.needs_mesh_rebuild = true;
            },
            Toggle::BoundingBox => self.show_bounding_box = !self.show_bounding_box,
            Toggle::Wireframe => self.show_wireframe = !self.show_wireframe,
            Toggle::Axes => self.show_axes = !self.show_axes,
            Toggle::Grids => self.show_grids = !self.show_grids,
            Toggle::ScaleRuler => self.show_scale_ruler = !self.show_scale_ruler,
        }
    }

    /// Whether the face colours must be rebuilt; clears the request.
    pub fn take_mesh_rebuild(&mut self) -> (rebuild: bool)
        ensures
            rebuild == old(self).needs_mesh_rebuild,
            *final(self) == (ViewSettings { needs_mesh_rebuild: false, ..*old(self) }),
    {
        let rebuild = self.needs_mesh_rebuild;
        self.needs_mesh_rebuild = false;
        rebuild
    }

    /// The axes are drawn as lines through the world origin.
    pub fn world_axes_visible(&self) -> (visible: bool)
        ensures
            visible == (self.show_axes && self.axes_mode == AxesMode::World),
    {
        self.show_axes && self.axes_mode == AxesMode::World
    }

    /// The axes are drawn as a triad in the corner of the viewport.
    pub fn screen_triad_visible(&self) -> (visible: bool)
        ensures
            visible == (self.show_axes && self.axes_mode == AxesMode::ScreenTriad),
    {
        self.show_axes && self.axes_mode == AxesMode::ScreenTriad
    }

    /// Whether the faces of a shell are drawn in their own colour rather
    /// than neutral grey: always when the file gives the shell a colour,
    /// otherwise only with random colours on.
    pub fn shows_face_colors(&self, shell_has_file_color: bool) -> (colored: bool)
        ensures
            colored == (self.show_random_colors || shell_has_file_color),
    {
        self.show_random_colors || shell_has_file_color
    }

    /// The grid planes that are switched on, in the order XY, YZ, XZ.
    pub fn grid_planes(&self) -> (planes: Vec<GridPlane>)
        ensures
            planes@ == grid_planes_spec(*self),
    {
        let mut planes: Vec<GridPlane> = Vec::new();
        if self.show_grid_xy {
            planes.push(GridPlane::XY);
        }
        if self.show_grid_yz {
            planes.push(GridPlane::YZ);
        }
        if self.show_grid_xz {
            planes.push(GridPlane::XZ);
        }
        assert(planes@ =~= grid_planes_spec(*self));
        planes
    }
}

/// The display option that toggle button `t` switches.
pub open spec fn option_of(s: ViewSettings, t: Toggle) -> bool {
    match t {
        Toggle::RandomColors => s.show_random_colors,
        Toggle::BoundingBox => s.show_bounding_box,
        Toggle::Wireframe => s.show_wireframe,
        Toggle::Axes => s.show_axes,
        Toggle::Grids => s.show_grids,
        Toggle::ScaleRuler => s.show_scale_ruler,
    }
}

/// Pressing button `t` flips the option that `t` names and no other: every
/// option switched by another button, the axes mode, the individual grid
/// planes and the selection mode stay as they were.
pub proof fn lemma_toggle_flips_its_option_only(s: ViewSettings, t: Toggle, u: Toggle)
    ensures
        option_of(toggled_settings(s, t), t) == !option_of(s, t),
        u != t ==> option_of(toggled_settings(s, t), u) == option_of(s, u),
        toggled_settings(s, t).axes_mode == s.axes_mode,
        toggled_settings(s, t).show_grid_xy == s.show_grid_xy,
        toggled_settings(s, t).show_grid_yz == s.show_grid_yz,
        toggled_settings(s, t).show_grid_xz == s.show_grid_xz,
        toggled_settings(s, t).selection_mode == s.selection_mode,
{
}

/// A grid plane is listed exactly when its own checkbox is on, and no plane
/// is listed twice.
pub proof fn lemma_grid_planes_follow_checkboxes(s: ViewSettings)
    ensures
        grid_planes_spec(s).contains(GridPlane::XY) <==> s.show_grid_xy,
        grid_planes_spec(s).contains(GridPlane::YZ) <==> s.show_grid_yz,
        grid_planes_spec(s).contains(GridPlane::XZ) <==> s.show_grid_xz,
        grid_planes_spec(s).no_duplicates(),
{
    let g = grid_planes_spec(s);
    if s.show_grid_xy {
        assert(g[0] == GridPlane::XY);
    }
    if s.show_grid_yz {
        assert(g[if s.show_grid_xy { 1int } else { 0int }] == GridPlane::YZ);
    }
    if s.show_grid_xz {
        assert(g[g.len() - 1] == GridPlane::XZ);
    }
}

/// Pressing a toggle button twice gives back the same display options; only
/// the request to rebuild the face colours may remain.
pub proof fn lemma_toggle_twice(s: ViewSettings, t: Toggle)
    ensures
        toggled_settings(toggled_settings(s, t), t) == (ViewSettings {
            needs_mesh_rebuild: toggled_settings(toggled_settings(s, t), t).needs_mesh_rebuild,
            ..s
        }),
        t == Toggle::RandomColors ==> toggled_settings(s, t).needs_mesh_rebuild,
        t != Toggle::RandomColors ==> toggled_settings(s, t).needs_mesh_rebuild == s.needs_mesh_rebuild,
{
}

} // verus!
