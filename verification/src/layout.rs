//! Where the views of a volume go in a window.

use vstd::prelude::*;

verus! {

/// The most views that a layout takes.
pub const MAX_VIEWS: usize = 4;

/// The place of one view in the window: the corner nearest the window's
/// origin, and width and height.
#[derive(Clone, Copy, Debug)]
pub struct Viewport {
    pub pos: (i32, i32),
    pub dim: (u32, u32),
}

impl Viewport {
    /// The corner nearest the window's origin.
    pub fn position(&self) -> (r: (i32, i32))
        ensures
            r == self.pos,
    {
        self.pos
    }

    /// Width and height.
    pub fn dimensions(&self) -> (r: (u32, u32))
        ensures
            r == self.dim,
    {
        self.dim
    }

    /// Moves the view to `pos`.
    pub fn move_to(&mut self, pos: (i32, i32))
        ensures
            *final(self) == (Viewport { pos, dim: old(self).dim }),
    {
        self.pos = pos;
    }

    /// Gives the view the width and height `dim`.
    pub fn resize(&mut self, dim: (u32, u32))
        ensures
            *final(self) == (Viewport { pos: old(self).pos, dim }),
    {
        self.dim = dim;
    }
}

/// The place of the view with the number `idx` in a window of the width
/// `width`: a square of half the window's width, the first two views side by
/// side at the top, the next two below them.
pub open spec fn slot(width: u32, idx: int) -> Viewport {
    let d = width as int / 2;
    Viewport {
        pos: (
            (idx % 2 * d) as i32,
            if idx < 2 {
                0i32
            } else {
                d as i32
            },
        ),
        dim: (d as u32, d as u32),
    }
}

/// Up to four views in a window, two to a row.
pub struct Layout {
    dim: (u32, u32),
    views: Vec<Viewport>,
}

/// What a layout holds, as mathematical values.
pub struct LayoutModel {
    /// Width and height of the window.
    pub window: (u32, u32),
    /// The views, in the order in which they were added.
    pub views: Seq<Viewport>,
}

impl View for Layout {
    type V = LayoutModel;

    closed spec fn view(&self) -> LayoutModel {
        LayoutModel { window: self.dim, views: self.views@ }
    }
}

impl Layout {
    /// The layout's invariant: at most four views, each in its slot.
    pub open spec fn wf(&self) -> bool {
        &&& self@.views.len() <= MAX_VIEWS
        &&& forall|k: int|
            0 <= k < self@.views.len() ==> #[trigger] self@.views[k] == slot(self@.window.0, k)
    }

    /// The layout of a window of width and height `dim`, with no view yet.
    pub fn new(dim: (u32, u32)) -> (r: Self)
        ensures
            r@ == (LayoutModel { window: dim, views: Seq::<Viewport>::empty() }),
            r.wf(),
    {
        Layout { dim, views: Vec::new() }
    }

    /// Width and height of the window.
    pub fn window(&self) -> (r: (u32, u32))
        ensures
            r == self@.window,
    {
        self.dim
    }

    /// The views, in the order in which they were added.
    pub fn views(&self) -> (r: &Vec<Viewport>)
        ensures
            r@ == self@.views,
    {
        &self.views
    }

    /// Whether the layout takes no further view.
    pub fn is_full(&self) -> (r: bool)
        ensures
            r == (self@.views.len() >= MAX_VIEWS),
    {
        self.views.len() >= MAX_VIEWS
    }

    /// Adds `view` in the next free slot, moved and sized to fit it.
    pub fn add_view(&mut self, view: Viewport)
        requires
            old(self)@.views.len() < MAX_VIEWS,
        ensures
            final(self)@ == (LayoutModel {
                window: old(self)@.window,
                views: old(self)@.views.push(
                    slot(old(self)@.window.0, old(self)@.views.len() as int),
                ),
            }),
            old(self).wf() ==> final(self).wf(),
    {
        let mut view = view;
        let idx: u32 = self.views.len() as u32;
        let d: u32 = self.dim.0 / 2;
        let column: u32 = idx % 2;
        assert(column * d <= d) by (nonlinear_arith)
            requires
                column <= 1,
        ;
        let pos_x: i32 = (column * d) as i32;
        let pos_y: i32 = if idx < 2 {
            0
        } else {
            d as i32
        };
        view.move_to((pos_x, pos_y));
        view.resize((d, d));
        self.views.push(view);
    }
}

} // verus!
