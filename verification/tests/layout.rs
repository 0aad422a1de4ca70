use winsafe::co::{SIZE_MINIMIZED, SWP_NOMOVE, SWP_NOSIZE, SWP_NOZORDER};
use winsafe::gui::layout_arranger::{Horz, LayoutArranger, Vert};
use winsafe::handles::HWND;
use winsafe::msg::Size;
use winsafe::structs::{RECT, SIZE};

fn rc(left: i32, top: i32, right: i32, bottom: i32) -> RECT {
    RECT { left, top, right, bottom }
}

#[test]
fn keep_keep_children_are_not_registered() {
    let mut a = LayoutArranger::new();
    a.add_child(HWND(1), HWND(2), rc(0, 0, 400, 300), rc(5, 5, 50, 20), Horz::Keep, Vert::Keep);
    let p = Size { request: 0, client_area: SIZE { cx: 500, cy: 350 } };
    assert_eq!(a.rearrange(&p).len(), 0);
}

#[test]
fn repos_child_moves_with_the_growth() {
    let mut a = LayoutArranger::new();
    a.add_child(HWND(1), HWND(2), rc(0, 0, 400, 300), rc(10, 20, 110, 50), Horz::Repos, Vert::Keep);
    let p = Size { request: 0, client_area: SIZE { cx: 500, cy: 350 } };
    let out = a.rearrange(&p);
    assert_eq!(out.len(), 1);
    assert_eq!(out[0].hchild, HWND(2));
    assert_eq!(out[0].pos.x, 110);
    assert_eq!(out[0].pos.y, 20);
    assert_eq!(out[0].size.cx, 100);
    assert_eq!(out[0].size.cy, 30);
    assert_eq!(out[0].flags, SWP_NOZORDER);
}

#[test]
fn resize_child_stretches_with_the_growth() {
    let mut a = LayoutArranger::new();
    a.add_child(
        HWND(1),
        HWND(3),
        rc(0, 0, 400, 300),
        rc(10, 20, 110, 50),
        Horz::Resize,
        Vert::Resize,
    );
    let p = Size { request: 0, client_area: SIZE { cx: 440, cy: 360 } };
    let out = a.rearrange(&p);
    assert_eq!(out.len(), 1);
    assert_eq!(out[0].pos.x, 10);
    assert_eq!(out[0].pos.y, 20);
    assert_eq!(out[0].size.cx, 140);
    assert_eq!(out[0].size.cy, 90);
    assert_eq!(out[0].flags, SWP_NOZORDER | SWP_NOMOVE);
}

#[test]
fn repos_both_axes_keeps_size() {
    let mut a = LayoutArranger::new();
    a.add_child(
        HWND(1),
        HWND(4),
        rc(0, 0, 200, 100),
        rc(150, 70, 190, 90),
        Horz::Repos,
        Vert::Repos,
    );
    let p = Size { request: 0, client_area: SIZE { cx: 260, cy: 140 } };
    let out = a.rearrange(&p);
    assert_eq!(out[0].pos.x, 210);
    assert_eq!(out[0].pos.y, 110);
    assert_eq!(out[0].size.cx, 40);
    assert_eq!(out[0].size.cy, 20);
    assert_eq!(out[0].flags, SWP_NOZORDER | SWP_NOSIZE);
}

#[test]
fn minimized_parent_moves_nothing() {
    let mut a = LayoutArranger::new();
    a.add_child(HWND(1), HWND(2), rc(0, 0, 400, 300), rc(10, 20, 110, 50), Horz::Repos, Vert::Keep);
    let p = Size { request: SIZE_MINIMIZED, client_area: SIZE { cx: 0, cy: 0 } };
    assert_eq!(a.rearrange(&p).len(), 0);
}

#[test]
fn shrinking_parent_moves_children_back() {
    let mut a = LayoutArranger::new();
    a.add_child(HWND(1), HWND(2), rc(0, 0, 400, 300), rc(300, 10, 380, 40), Horz::Repos, Vert::Keep);
    let p = Size { request: 0, client_area: SIZE { cx: 320, cy: 300 } };
    let out = a.rearrange(&p);
    assert_eq!(out[0].pos.x, 220);
    assert_eq!(out[0].size.cx, 80);
}

#[test]
fn several_children_are_placed_in_registration_order() {
    let mut a = LayoutArranger::new();
    let parent = rc(0, 0, 400, 300);
    a.add_child(HWND(1), HWND(2), parent, rc(0, 0, 40, 20), Horz::Repos, Vert::Keep);
    a.add_child(HWND(1), HWND(3), parent, rc(0, 30, 40, 50), Horz::Keep, Vert::Resize);
    let p = Size { request: 0, client_area: SIZE { cx: 410, cy: 320 } };
    let out = a.rearrange(&p);
    assert_eq!(out.len(), 2);
    assert_eq!(out[0].hchild, HWND(2));
    assert_eq!(out[0].pos.x, 10);
    assert_eq!(out[1].hchild, HWND(3));
    assert_eq!(out[1].size.cy, 40);
}
