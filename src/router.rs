use vstd::prelude::*;

verus! {

/// What the router reads of one live window at the moment of routing.
#[derive(Clone, Copy, Debug, PartialEq, Eq, Structural)]
pub struct WindowState {
    pub focused: bool,
    pub visible: bool,
}

/// Where a file-open notification should go.
#[derive(Clone, Copy, Debug, PartialEq, Eq, Structural)]
pub enum Target {
    /// The window at this position of the window list.
    Existing(usize),
    /// No window exists: one has to be created.
    CreateNew,
}

/// `i` is the first position whose window is focused.
pub open spec fn first_focused_at(ws: Seq<WindowState>, i: int) -> bool {
    &&& 0 <= i < ws.len()
    &&& ws[i].focused
    &&& forall|j: int| 0 <= j < i ==> !(#[trigger] ws[j]).focused
}

/// `i` is the first position whose window is visible.
pub open spec fn first_visible_at(ws: Seq<WindowState>, i: int) -> bool {
    &&& 0 <= i < ws.len()
    &&& ws[i].visible
    &&& forall|j: int| 0 <= j < i ==> !(#[trigger] ws[j]).visible
}

pub open spec fn any_focused(ws: Seq<WindowState>) -> bool {
    exists|i: int| 0 <= i < ws.len() && (#[trigger] ws[i]).focused
}

pub open spec fn any_visible(ws: Seq<WindowState>) -> bool {
    exists|i: int| 0 <= i < ws.len() && (#[trigger] ws[i]).visible
}

/// `t` is the routing choice for the windows `ws`: the first focused window,
/// else the first visible one, else the first one, else a new window.
pub open spec fn is_route(ws: Seq<WindowState>, t: Target) -> bool {
    match t {
        Target::CreateNew => ws.len() == 0,
        Target::Existing(i) => if any_focused(ws) {
            first_focused_at(ws, i as int)
        } else if any_visible(ws) {
            first_visible_at(ws, i as int)
        } else {
            0 < ws.len() && i == 0
        },
    }
}

/// Picks the window that receives a file-open notification.
pub fn select_target(windows: &Vec<WindowState>) -> (r: Target)
    ensures
        is_route(windows@, r),
{
    let n = windows.len();
    let mut i: usize = 0;
    while i < n
        invariant
            n == windows@.len(),
            i <= n,
            forall|j: int| 0 <= j < i ==> !(#[trigger] windows@[j]).focused,
        decreases n - i,
    {
        if windows[i].focused {
            return Target::Existing(i);
        }
        i = i + 1;
    }
    let mut k: usize = 0;
    while k < n
        invariant
            n == windows@.len(),
            k <= n,
            !any_focused(windows@),
            forall|j: int| 0 <= j < k ==> !(#[trigger] windows@[j]).visible,
        decreases n - k,
    {
        if windows[k].visible {
            return Target::Existing(k);
        }
        k = k + 1;
    }
    if n == 0 {
        Target::CreateNew
    } else {
        Target::Existing(0)
    }
}

/// The routing choice is unique: at most one target meets `is_route`.
pub proof fn lemma_route_unique(ws: Seq<WindowState>, a: Target, b: Target)
    requires
        is_route(ws, a),
        is_route(ws, b),
    ensures
        a == b,
{
    match (a, b) {
        (Target::Existing(i), Target::Existing(k)) => {
            if any_focused(ws) {
                if i < k {
                    assert(!ws[i as int].focused);
                } else if k < i {
                    assert(!ws[k as int].focused);
                }
            } else if any_visible(ws) {
                if i < k {
                    assert(!ws[i as int].visible);
                } else if k < i {
                    assert(!ws[k as int].visible);
                }
            }
        },
        _ => {},
    }
}

/// When exactly one window is focused, that window receives the notification,
/// however many others are visible.
pub proof fn lemma_single_focused_wins(ws: Seq<WindowState>, k: int, t: Target)
    requires
        0 <= k < ws.len(),
        ws[k].focused,
        forall|j: int| 0 <= j < ws.len() && j != k ==> !(#[trigger] ws[j]).focused,
        is_route(ws, t),
    ensures
        t == Target::Existing(k as usize),
{
    assert(any_focused(ws));
    if let Target::Existing(i) = t {
        assert(ws[i as int].focused);
    }
}

/// With no windows at all the only routing choice is to create one.
pub proof fn lemma_no_windows_creates_new(ws: Seq<WindowState>, t: Target)
    requires
        ws.len() == 0,
    ensures
        is_route(ws, t) <==> t == Target::CreateNew,
{
}

} // verus!
