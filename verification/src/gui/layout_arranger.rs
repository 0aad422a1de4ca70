//! Rearranges child controls when their parent window is resized.
//!
//! Each registered control carries a rule per axis: keep its place, move
//! anchored to the far edge, or stretch with the parent. The arranger
//! remembers the parent's original client size and each control's original
//! rectangle, and computes for any new client size the exact placement of
//! every control. The OS queries that feed it (client and window
//! rectangles) and the deferred positioning calls that consume its output
//! happen outside; the arithmetic in between is verified.

use vstd::prelude::*;
use crate::co::{SIZE_MINIMIZED, SWP_NOMOVE, SWP_NOSIZE, SWP_NOZORDER};
use crate::handles::HWND;
use crate::msg::Size;
use crate::structs::{POINT, RECT, SIZE};

verus! {

/// Largest coordinate magnitude the arranger accepts; keeps every placement
/// computation inside the 32-bit range.
pub const COORD_LIMIT: i32 = 0x1000_0000;

/// Whether one coordinate is within the accepted magnitude.
pub open spec fn coord_ok(v: int) -> bool {
    -COORD_LIMIT <= v <= COORD_LIMIT
}

/// Whether all four coordinates of a rectangle are within the accepted
/// magnitude.
pub open spec fn rect_ok(rc: RECT) -> bool {
    coord_ok(rc.left as int) && coord_ok(rc.top as int) && coord_ok(rc.right as int) && coord_ok(
        rc.bottom as int)
}

/// Whether both extents of a size are within the accepted magnitude.
pub open spec fn size_ok(sz: SIZE) -> bool {
    coord_ok(sz.cx as int) && coord_ok(sz.cy as int)
}

/// The horizontal behavior of a control when the parent window is resized.
#[derive(Clone, Copy, PartialEq, Eq, Structural, Debug, Hash)]
pub enum Horz {
    /// Nothing is done on this axis.
    Keep,
    /// The control moves, anchored at the right; its width stays fixed.
    Repos,
    /// The control's width stretches or shrinks; its position stays fixed.
    Resize,
}

/// The vertical behavior of a control when the parent window is resized.
#[derive(Clone, Copy, PartialEq, Eq, Structural, Debug, Hash)]
pub enum Vert {
    /// Nothing is done on this axis.
    Keep,
    /// The control moves, anchored at the bottom; its height stays fixed.
    Repos,
    /// The control's height stretches or shrinks; its position stays fixed.
    Resize,
}

/// One registered control: its handle, its original rectangle relative to
/// the parent's client area, and its rule per axis.
#[derive(Clone, Copy, PartialEq, Eq, Structural, Debug)]
pub struct ChildInfo {
    /// The control's window handle.
    pub hchild: HWND,
    /// The control's original rectangle, in parent client coordinates.
    pub rc_orig: RECT,
    /// The horizontal rule.
    pub horz: Horz,
    /// The vertical rule.
    pub vert: Vert,
}

/// One computed placement: where a control goes and which placement flags
/// apply.
#[derive(Clone, Copy, PartialEq, Eq, Structural, Debug)]
pub struct Placement {
    /// The control to place.
    pub hchild: HWND,
    /// The new position, in parent client coordinates.
    pub pos: POINT,
    /// The new size.
    pub size: SIZE,
    /// The placement flags.
    pub flags: u32,
}

/// The new left edge: anchored controls shift by the client width change,
/// all others keep their place.
pub open spec fn target_x(horz: Horz, client_cx: int, orig_cx: int, left: int) -> int {
    if horz == Horz::Repos {
        client_cx - orig_cx + left
    } else {
        left
    }
}

/// The new top edge: anchored controls shift by the client height change,
/// all others keep their place.
pub open spec fn target_y(vert: Vert, client_cy: int, orig_cy: int, top: int) -> int {
    if vert == Vert::Repos {
        client_cy - orig_cy + top
    } else {
        top
    }
}

/// The new width: stretching controls grow by the client width change, all
/// others keep their width.
pub open spec fn target_cx(horz: Horz, client_cx: int, orig_cx: int, left: int, right: int) -> int {
    if horz == Horz::Resize {
        client_cx - orig_cx + right - left
    } else {
        right - left
    }
}

/// The new height: stretching controls grow by the client height change,
/// all others keep their height.
pub open spec fn target_cy(vert: Vert, client_cy: int, orig_cy: int, top: int, bottom: int) -> int {
    if vert == Vert::Resize {
        client_cy - orig_cy + bottom - top
    } else {
        bottom - top
    }
}

/// The placement flags: the stacking order is always kept; a control that
/// only moves keeps its size, one that only stretches keeps its position.
pub open spec fn target_flags(horz: Horz, vert: Vert) -> u32 {
    if horz == Horz::Repos && vert == Vert::Repos {
        SWP_NOZORDER | SWP_NOSIZE
    } else if horz == Horz::Resize && vert == Vert::Resize {
        SWP_NOZORDER | SWP_NOMOVE
    } else {
        SWP_NOZORDER
    }
}

/// The full placement of one registered control for a given original parent
/// size and new client size.
pub open spec fn placement_of(c: ChildInfo, orig: SIZE, client: SIZE) -> Placement {
    Placement {
        hchild: c.hchild,
        pos: POINT {
            x: target_x(c.horz, client.cx as int, orig.cx as int, c.rc_orig.left as int) as i32,
            y: target_y(c.vert, client.cy as int, orig.cy as int, c.rc_orig.top as int) as i32,
        },
        size: SIZE {
            cx: target_cx(
                c.horz,
                client.cx as int,
                orig.cx as int,
                c.rc_orig.left as int,
                c.rc_orig.right as int,
            ) as i32,
            cy: target_cy(
                c.vert,
                client.cy as int,
                orig.cy as int,
                c.rc_orig.top as int,
                c.rc_orig.bottom as int,
            ) as i32,
        },
        flags: target_flags(c.horz, c.vert),
    }
}

/// Rearranges the registered controls according to their rules.
pub struct LayoutArranger {
    ctrls: Vec<ChildInfo>,
    sz_parent_orig: SIZE,
}

impl LayoutArranger {
    /// The registered controls, in registration order.
    pub closed spec fn ctrls_spec(&self) -> Seq<ChildInfo> {
        self.ctrls@
    }

    /// The parent's client size recorded when the first control was
    /// registered.
    pub closed spec fn parent_orig_spec(&self) -> SIZE {
        self.sz_parent_orig
    }

    /// The arranger's invariant: the recorded parent size and every
    /// registered rectangle are within the accepted magnitude.
    pub open spec fn wf(&self) -> bool {
        &&& size_ok(self.parent_orig_spec())
        &&& forall|i: int|
            0 <= i < self.ctrls_spec().len() ==> rect_ok((#[trigger] self.ctrls_spec()[i]).rc_orig)
    }

    /// An empty arranger.
    pub fn new() -> (a: LayoutArranger)
        ensures
            a.wf(),
            a.ctrls_spec() == Seq::<ChildInfo>::empty(),
            a.parent_orig_spec() == (SIZE { cx: 0, cy: 0 }),
    {
        let a = LayoutArranger { ctrls: Vec::new(), sz_parent_orig: SIZE::default() };
        proof {
            assert(a.ctrls@ =~= Seq::<ChildInfo>::empty());
        }
        a
    }

    /// Registers a child control so later rearrangements place it. Both
    /// handles must name existing windows. A control whose two rules both
    /// keep it in place needs no rearranging and is not registered. The
    /// first registration records the parent's current client size, against
    /// which all later changes are measured; `rc_parent` is the parent's
    /// client rectangle and `rc_child` the control's rectangle in parent
    /// client coordinates, both as just queried.
    pub fn add_child(
        &mut self,
        hparent: HWND,
        hchild: HWND,
        rc_parent: RECT,
        rc_child: RECT,
        horz: Horz,
        vert: Vert,
    )
        requires
            old(self).wf(),
            hparent.0 != 0,
            hchild.0 != 0,
            rect_ok(rc_parent),
            rect_ok(rc_child),
        ensures
            final(self).wf(),
            horz == Horz::Keep && vert == Vert::Keep ==> final(self).ctrls_spec() == old(
                self).ctrls_spec() && final(self).parent_orig_spec() == old(
                self).parent_orig_spec(),
            !(horz == Horz::Keep && vert == Vert::Keep) ==> {
                &&& final(self).ctrls_spec() == old(self).ctrls_spec().push(
                    ChildInfo { hchild, rc_orig: rc_child, horz, vert })
                &&& old(self).ctrls_spec().len() == 0 ==> final(self).parent_orig_spec() == (SIZE {
                    cx: rc_parent.right,
                    cy: rc_parent.bottom,
                })
                &&& old(self).ctrls_spec().len() != 0 ==> final(self).parent_orig_spec() == old(
                    self).parent_orig_spec()
            },
    {
        if horz == Horz::Keep && vert == Vert::Keep {
            return ;
        }
        if self.ctrls.len() == 0 {
            self.sz_parent_orig = SIZE::new(rc_parent.right, rc_parent.bottom);
        }
        self.ctrls.push(ChildInfo { hchild, rc_orig: rc_child, horz, vert });
    }

    /// Computes the placement of every registered control for the new
    /// client size carried by the resize message. A minimized parent, or an
    /// arranger with no registered controls, yields no placements; otherwise
    /// one placement per control, in registration order, each the exact
    /// target of its rules.
    pub fn rearrange(&self, p: &Size) -> (r: Vec<Placement>)
        requires
            self.wf(),
            size_ok(p.client_area),
        ensures
            self.ctrls_spec().len() == 0 || p.request == SIZE_MINIMIZED ==> r@.len() == 0,
            !(self.ctrls_spec().len() == 0 || p.request == SIZE_MINIMIZED) ==> {
                &&& r@.len() == self.ctrls_spec().len()
                &&& forall|i: int|
                    0 <= i < r@.len() ==> #[trigger] r@[i] == placement_of(
                        self.ctrls_spec()[i],
                        self.parent_orig_spec(),
                        p.client_area,
                    )
            },
    {
        let mut out: Vec<Placement> = Vec::new();
        if self.ctrls.len() == 0 || p.request == SIZE_MINIMIZED {
            return out;
        }
        let mut i: usize = 0;
        while i < self.ctrls.len()
            invariant
                self.wf(),
                size_ok(p.client_area),
                i <= self.ctrls_spec().len(),
                out@.len() == i,
                forall|j: int|
                    0 <= j < i ==> #[trigger] out@[j] == placement_of(
                        self.ctrls_spec()[j],
                        self.parent_orig_spec(),
                        p.client_area,
                    ),
            decreases self.ctrls_spec().len() - i,
        {
            let c = self.ctrls[i];
            let mut uflags: u32 = SWP_NOZORDER;
            if c.horz == Horz::Repos && c.vert == Vert::Repos {
                uflags = SWP_NOZORDER | SWP_NOSIZE;
            } else if c.horz == Horz::Resize && c.vert == Vert::Resize {
                uflags = SWP_NOZORDER | SWP_NOMOVE;
            }
            let x: i32 = if c.horz == Horz::Repos {
                p.client_area.cx - self.sz_parent_orig.cx + c.rc_orig.left
            } else {
                c.rc_orig.left
            };
            let y: i32 = if c.vert == Vert::Repos {
                p.client_area.cy - self.sz_parent_orig.cy + c.rc_orig.top
            } else {
                c.rc_orig.top
            };
            let cx: i32 = if c.horz == Horz::Resize {
                p.client_area.cx - self.sz_parent_orig.cx + c.rc_orig.right - c.rc_orig.left
            } else {
                c.rc_orig.right - c.rc_orig.left
            };
            let cy: i32 = if c.vert == Vert::Resize {
                p.client_area.cy - self.sz_parent_orig.cy + c.rc_orig.bottom - c.rc_orig.top
            } else {
                c.rc_orig.bottom - c.rc_orig.top
            };
            out.push(
                Placement {
                    hchild: c.hchild,
                    pos: POINT::new(x, y),
                    size: SIZE::new(cx, cy),
                    flags: uflags,
                },
            );
            i = i + 1;
        }
        out
    }
}

} // verus!
