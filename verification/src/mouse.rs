//! Which action a mouse click or scroll stands for, given where the screen's
//! areas are and what the application shows.
use vstd::prelude::*;
use vstd::view::View as _;

use crate::actions::AppAction;
use crate::state::{AppState, FileEntry, Modal, View};
use crate::status::FileSection;
use crate::copilot::utf8_len_capped;
use crate::text::{chars_of, utf8_len};

verus! {

/// A rectangle of terminal cells.
#[derive(Clone, Copy, Debug, PartialEq, Eq, Structural)]
pub struct Rect {
    pub x: u16,
    pub y: u16,
    pub width: u16,
    pub height: u16,
}

/// Where the parts of the screen are.
#[derive(Clone, Copy, Debug)]
pub struct ScreenAreas {
    /// The row of repository tabs.
    pub header_row1: Rect,
    /// The row of view tabs.
    pub header_row2: Rect,
    /// The area of the active view.
    pub view_area: Rect,
    /// In the changes view, the file list and the diff.
    pub changes_list: Rect,
    pub changes_detail: Rect,
    /// In the pull request view, the list and the details.
    pub pr_list: Rect,
    pub pr_detail: Rect,
}

/// What the mouse did.
#[derive(Clone, Copy, Debug, PartialEq, Eq, Structural)]
pub enum MouseKind {
    LeftDown,
    ScrollDown,
    ScrollUp,
    Other,
}

/// A mouse event at a cell.
#[derive(Clone, Copy, Debug)]
pub struct MouseInput {
    pub kind: MouseKind,
    pub column: u16,
    pub row: u16,
}

/// Whether the cell lies in the rectangle.
pub open spec fn in_rect(col: u16, row: u16, r: Rect) -> bool {
    col >= r.x && col < r.x + r.width && row >= r.y && row < r.y + r.height
}

fn in_rect_exec(col: u16, row: u16, r: Rect) -> (b: bool)
    ensures
        b == in_rect(col, row, r),
{
    let c = col as u32;
    let w = row as u32;
    c >= r.x as u32 && c < r.x as u32 + r.width as u32 && w >= r.y as u32 && w < r.y as u32
        + r.height as u32
}

/// The repository tab under column `col`, scanning tab `i` (starting at column
/// `x`) and the following ones: each shows ` name ` and tabs are two columns apart.
pub open spec fn repo_tab_at(col: int, x: int, names: Seq<Seq<char>>, i: int) -> AppAction
    decreases names.len() - i,
{
    if i < 0 || i >= names.len() {
        AppAction::Noop
    } else {
        let start = if i > 0 {
            x + 2
        } else {
            x
        };
        let width = utf8_len(names[i]) + 2;
        if start <= col < start + width {
            AppAction::SelectRepo(i as usize)
        } else {
            repo_tab_at(col, start + width, names, i + 1)
        }
    }
}

/// The names of the repositories.
pub open spec fn repo_names(s: AppState) -> Seq<Seq<char>> {
    s.repos@.map_values(|r: crate::state::RepositoryState| r.summary.name@)
}

/// The view tab under column `col`: ` Changes `, then ` │ `, then ` PR `.
pub open spec fn view_tab_at(col: int, x: int) -> AppAction {
    if x <= col < x + 9 {
        AppAction::SwitchView(View::Changes)
    } else if x + 12 <= col < x + 16 {
        AppAction::SwitchView(View::Pr)
    } else {
        AppAction::Noop
    }
}

/// The row of the file list under `clicked` (0 being the first row inside the
/// border), scanning entry `k` at row `row_idx` after section `cur`: each
/// section starts with a header row.
pub open spec fn file_row_at(
    es: Seq<FileEntry>,
    k: int,
    row_idx: int,
    cur: Option<FileSection>,
    clicked: int,
) -> AppAction
    decreases es.len() - k,
{
    if k < 0 || k >= es.len() {
        AppAction::Noop
    } else if cur != Some(es[k].section) && row_idx == clicked {
        AppAction::Noop
    } else {
        let r = if cur != Some(es[k].section) {
            row_idx + 1
        } else {
            row_idx
        };
        if r == clicked {
            AppAction::SelectFile(k as usize)
        } else {
            file_row_at(es, k + 1, r + 1, Some(es[k].section), clicked)
        }
    }
}

/// A click in the list at `list`: the rows start below its top border.
pub open spec fn list_click(row: u16, list: Rect, s: AppState, files: bool) -> AppAction {
    if row < list.y + 1 {
        AppAction::Noop
    } else if files {
        file_row_at(s.grouped_files.entries@, 0, 0, None, row - (list.y + 1))
    } else {
        match s.current_repo() {
            Some(r) => if row - (list.y + 1) < r.pull_requests@.len() {
                AppAction::SelectPr((row - (list.y + 1)) as usize)
            } else {
                AppAction::Noop
            },
            None => AppAction::Noop,
        }
    }
}

/// The action of a mouse event: none while a dialog is open; a left click
/// selects a repository tab, a view tab, a file or a pull request; scrolling
/// moves through the list under the pointer or scrolls the detail beside it.
pub open spec fn mouse_action(m: MouseInput, screen: ScreenAreas, s: AppState) -> AppAction {
    let col = m.column;
    let row = m.row;
    if s.modal != Modal::Closed {
        AppAction::Noop
    } else {
        match m.kind {
            MouseKind::LeftDown => if in_rect(col, row, screen.header_row1) {
                repo_tab_at(col as int, screen.header_row1.x as int, repo_names(s), 0)
            } else if in_rect(col, row, screen.header_row2) {
                view_tab_at(col as int, screen.header_row2.x as int)
            } else if in_rect(col, row, screen.view_area) {
                match s.active_view {
                    View::Changes => if in_rect(col, row, screen.changes_list) {
                        list_click(row, screen.changes_list, s, true)
                    } else {
                        AppAction::Noop
                    },
                    View::Pr => if in_rect(col, row, screen.pr_list) {
                        list_click(row, screen.pr_list, s, false)
                    } else {
                        AppAction::Noop
                    },
                    _ => AppAction::Noop,
                }
            } else {
                AppAction::Noop
            },
            MouseKind::ScrollDown | MouseKind::ScrollUp => {
                let down = m.kind == MouseKind::ScrollDown;
                if !in_rect(col, row, screen.view_area) {
                    AppAction::Noop
                } else {
                    match s.active_view {
                        View::Changes => if in_rect(col, row, screen.changes_list) {
                            if down {
                                AppAction::SelectNextFile
                            } else {
                                AppAction::SelectPreviousFile
                            }
                        } else if in_rect(col, row, screen.changes_detail) {
                            if down {
                                AppAction::ScrollDiffDown
                            } else {
                                AppAction::ScrollDiffUp
                            }
                        } else {
                            AppAction::Noop
                        },
                        View::Pr => if in_rect(col, row, screen.pr_list) {
                            if down {
                                AppAction::SelectNextPr
                            } else {
                                AppAction::SelectPreviousPr
                            }
                        } else if in_rect(col, row, screen.pr_detail) {
                            if down {
                                AppAction::ScrollPrDetailDown
                            } else {
                                AppAction::ScrollPrDetailUp
                            }
                        } else {
                            AppAction::Noop
                        },
                        _ => AppAction::Noop,
                    }
                }
            },
            MouseKind::Other => AppAction::Noop,
        }
    }
}

fn hit_repo_tab(col: u16, area: Rect, state: &AppState) -> (r: AppAction)
    ensures
        r == repo_tab_at(col as int, area.x as int, repo_names(*state), 0),
{
    let ghost names = repo_names(*state);
    let n = state.repos.len();
    let mut x: u64 = area.x as u64;
    let mut i: usize = 0;
    while i < n
        invariant
            n == state.repos@.len() == names.len(),
            names == repo_names(*state),
            i <= n,
            x <= u64::MAX / 2,
            repo_tab_at(col as int, area.x as int, names, 0) == repo_tab_at(
                col as int,
                x as int,
                names,
                i as int,
            ),
            i > 0 ==> x > 0,
        decreases n - i,
    {
        let start: u64 = if i > 0 {
            x + 2
        } else {
            x
        };
        if start > col as u64 {
            proof {
                lemma_no_tab_before(col as int, x as int, names, i as int);
            }
            return AppAction::Noop;
        }
        let name_len = utf8_len_capped(&chars_of(state.repos[i].summary.name.as_str()), 70000);
        proof {
            assert(names[i as int] == state.repos@[i as int].summary.name@);
        }
        let width: u64 = name_len as u64 + 2;
        if (col as u64) < start + width {
            return AppAction::SelectRepo(i);
        }
        assert(name_len as int == utf8_len(names[i as int]));
        x = start + width;
        i = i + 1;
    }
    AppAction::Noop
}

/// Tabs are laid out left to right: when tab `i` starts right of `col`, no
/// later tab covers it.
proof fn lemma_no_tab_before(col: int, x: int, names: Seq<Seq<char>>, i: int)
    requires
        0 <= i,
        (if i > 0 {
            x + 2
        } else {
            x
        }) > col,
    ensures
        repo_tab_at(col, x, names, i) == AppAction::Noop,
    decreases names.len() - i,
{
    if 0 <= i < names.len() {
        let start = if i > 0 {
            x + 2
        } else {
            x
        };
        let width = utf8_len(names[i]) + 2;
        lemma_no_tab_before(col, start + width, names, i + 1);
    }
}

fn hit_view_tab(col: u16, area: Rect) -> (r: AppAction)
    ensures
        r == view_tab_at(col as int, area.x as int),
{
    let c = col as u32;
    let x = area.x as u32;
    if x <= c && c < x + 9 {
        AppAction::SwitchView(View::Changes)
    } else if x + 12 <= c && c < x + 16 {
        AppAction::SwitchView(View::Pr)
    } else {
        AppAction::Noop
    }
}

/// Rows only grow: past the clicked row nothing is hit.
proof fn lemma_past_clicked(es: Seq<FileEntry>, k: int, row_idx: int, cur: Option<FileSection>, clicked: int)
    requires
        row_idx > clicked,
    ensures
        file_row_at(es, k, row_idx, cur, clicked) == AppAction::Noop,
    decreases es.len() - k,
{
    if 0 <= k < es.len() {
        let r = if cur != Some(es[k].section) {
            row_idx + 1
        } else {
            row_idx
        };
        lemma_past_clicked(es, k + 1, r + 1, Some(es[k].section), clicked);
    }
}

fn hit_file_item(clicked: usize, state: &AppState) -> (r: AppAction)
    requires
        clicked <= u16::MAX,
    ensures
        r == file_row_at(state.grouped_files.entries@, 0, 0, None, clicked as int),
{
    let es = &state.grouped_files.entries;
    let n = es.len();
    let mut row_idx: usize = 0;
    let mut cur: Option<FileSection> = None;
    let mut k: usize = 0;
    while k < n
        invariant
            es@ == state.grouped_files.entries@,
            n == es@.len(),
            k <= n,
            clicked <= u16::MAX,
            row_idx <= clicked + 2,
            file_row_at(es@, 0, 0, None, clicked as int) == file_row_at(
                es@,
                k as int,
                row_idx as int,
                cur,
                clicked as int,
            ),
        decreases n - k,
    {
        if row_idx > clicked {
            proof {
                lemma_past_clicked(es@, k as int, row_idx as int, cur, clicked as int);
            }
            return AppAction::Noop;
        }
        let e = es[k];
        let new_section = match cur {
            Some(c) => c != e.section,
            None => true,
        };
        let mut r = row_idx;
        if new_section {
            if row_idx == clicked {
                return AppAction::Noop;
            }
            r = row_idx + 1;
        }
        if r == clicked {
            return AppAction::SelectFile(k);
        }
        row_idx = r + 1;
        cur = Some(e.section);
        k = k + 1;
    }
    AppAction::Noop
}

fn hit_list(row: u16, list: Rect, state: &AppState, files: bool) -> (r: AppAction)
    ensures
        r == list_click(row, list, *state, files),
{
    if (row as u32) < list.y as u32 + 1 {
        return AppAction::Noop;
    }
    let clicked = (row as u32 - (list.y as u32 + 1)) as usize;
    if files {
        hit_file_item(clicked, state)
    } else if state.selected_repo < state.repos.len() && clicked
        < state.repos[state.selected_repo].pull_requests.len() {
        AppAction::SelectPr(clicked)
    } else {
        AppAction::Noop
    }
}

/// The action a mouse event stands for (`mouse_action`).
pub fn map_mouse_event(mouse: MouseInput, screen: &ScreenAreas, state: &AppState) -> (r: AppAction)
    ensures
        r == mouse_action(mouse, *screen, *state),
{
    if state.modal != Modal::Closed {
        return AppAction::Noop;
    }
    let col = mouse.column;
    let row = mouse.row;
    match mouse.kind {
        MouseKind::LeftDown => {
            if in_rect_exec(col, row, screen.header_row1) {
                hit_repo_tab(col, screen.header_row1, state)
            } else if in_rect_exec(col, row, screen.header_row2) {
                hit_view_tab(col, screen.header_row2)
            } else if in_rect_exec(col, row, screen.view_area) {
                match state.active_view {
                    View::Changes => if in_rect_exec(col, row, screen.changes_list) {
                        hit_list(row, screen.changes_list, state, true)
                    } else {
                        AppAction::Noop
                    },
                    View::Pr => if in_rect_exec(col, row, screen.pr_list) {
                        hit_list(row, screen.pr_list, state, false)
                    } else {
                        AppAction::Noop
                    },
                    _ => AppAction::Noop,
                }
            } else {
                AppAction::Noop
            }
        },
        MouseKind::ScrollDown | MouseKind::ScrollUp => {
            let down = mouse.kind == MouseKind::ScrollDown;
            if !in_rect_exec(col, row, screen.view_area) {
                return AppAction::Noop;
            }
            match state.active_view {
                View::Changes => if in_rect_exec(col, row, screen.changes_list) {
                    if down {
                        AppAction::SelectNextFile
                    } else {
                        AppAction::SelectPreviousFile
                    }
                } else if in_rect_exec(col, row, screen.changes_detail) {
                    if down {
                        AppAction::ScrollDiffDown
                    } else {
                        AppAction::ScrollDiffUp
                    }
                } else {
                    AppAction::Noop
                },
                View::Pr => if in_rect_exec(col, row, screen.pr_list) {
                    if down {
                        AppAction::SelectNextPr
                    } else {
                        AppAction::SelectPreviousPr
                    }
                } else if in_rect_exec(col, row, screen.pr_detail) {
                    if down {
                        AppAction::ScrollPrDetailDown
                    } else {
                        AppAction::ScrollPrDetailUp
                    }
                } else {
                    AppAction::Noop
                },
                _ => AppAction::Noop,
            }
        },
        MouseKind::Other => AppAction::Noop,
    }
}

} // verus!
