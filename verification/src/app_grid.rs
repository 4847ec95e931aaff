//! The paged app grid: how many tiles fit on a page, how many pages there
//! are, which page is shown, and which app goes into which tile.
use vstd::prelude::*;
use crate::app_state::AppEntry;
use crate::focus::FocusKey;
use crate::text::str_eq;

verus! {

/// The paging arithmetic of the app grid, for a grid of `columns` by `rows`
/// tiles holding `app_count` apps.
#[derive(Clone, Copy, PartialEq, Eq, Structural, Debug)]
pub struct AppGridMetrics {
    pub columns: usize,
    pub rows: usize,
    pub tiles_per_page: usize,
    pub page_count: usize,
}

/// How many tiles a page holds: all its cells, and at least one.
pub open spec fn tiles_per_page_for(columns: usize, rows: usize) -> int {
    if columns * rows >= 1 {
        columns * rows
    } else {
        1
    }
}

/// How many pages `app_count` apps take at `tiles_per_page` a page: enough
/// for all of them, and at least one.
pub open spec fn page_count_for(app_count: int, tiles_per_page: int) -> int {
    let needed = app_count / tiles_per_page + if app_count % tiles_per_page != 0 {
        1int
    } else {
        0int
    };
    if needed >= 1 {
        needed
    } else {
        1
    }
}

impl AppGridMetrics {
    /// The metrics were computed for some grid shape and number of apps.
    pub open spec fn well_formed(self) -> bool {
        self.tiles_per_page >= 1 && self.page_count >= 1
    }

    /// The paging arithmetic for a grid of `columns` by `rows` tiles holding
    /// `app_count` apps.
    pub fn from_grid_shape(columns: usize, rows: usize, app_count: usize) -> (metrics: Self)
        requires
            columns * rows <= usize::MAX,
        ensures
            metrics.columns == columns,
            metrics.rows == rows,
            metrics.tiles_per_page == tiles_per_page_for(columns, rows),
            metrics.page_count == page_count_for(app_count as int, metrics.tiles_per_page as int),
            metrics.well_formed(),
    {
        let cells = columns * rows;
        let tiles_per_page = if cells >= 1 {
            cells
        } else {
            1
        };
        let whole_pages = app_count / tiles_per_page;
        let needed = if app_count % tiles_per_page != 0 {
            assert(whole_pages < usize::MAX) by (nonlinear_arith)
                requires
                    tiles_per_page >= 1,
                    app_count % tiles_per_page != 0,
                    whole_pages == app_count / tiles_per_page,
                    app_count <= usize::MAX,
            {
                if tiles_per_page == 1 {
                    assert(app_count % tiles_per_page == 0);
                } else {
                    assert(whole_pages * tiles_per_page <= app_count);
                    assert(whole_pages * 2 <= whole_pages * tiles_per_page);
                }
            }
            whole_pages + 1
        } else {
            whole_pages
        };
        let page_count = if needed >= 1 {
            needed
        } else {
            1
        };
        AppGridMetrics { columns, rows, tiles_per_page, page_count }
    }

    /// The index of the last page.
    pub open spec fn last_page(self) -> int {
        if self.page_count >= 1 {
            self.page_count - 1
        } else {
            0
        }
    }

    /// The index of the last page.
    pub fn last_page_index(self) -> (last: usize)
        ensures
            last == self.last_page(),
    {
        self.page_count.saturating_sub(1)
    }

    /// The page `delta` pages away from `page_index`: never before the first
    /// page; moving forward never goes past the last page.
    pub open spec fn offset(self, page_index: usize, delta: isize) -> int {
        if delta < 0 {
            if page_index + delta >= 0 {
                page_index + delta
            } else {
                0
            }
        } else {
            let moved = if page_index + delta <= usize::MAX {
                page_index + delta
            } else {
                usize::MAX as int
            };
            if moved <= self.last_page() {
                moved
            } else {
                self.last_page()
            }
        }
    }

    /// The page `delta` pages away from `page_index`.
    pub fn offset_page(self, page_index: usize, delta: isize) -> (page: usize)
        ensures
            page == self.offset(page_index, delta),
    {
        if delta < 0 {
            let magnitude = ((-(delta + 1)) as usize) + 1;
            page_index.saturating_sub(magnitude)
        } else {
            let moved = page_index.saturating_add(delta as usize);
            let last = self.last_page_index();
            if moved <= last {
                moved
            } else {
                last
            }
        }
    }
}

/// The position of the first app in `apps` whose identifier is `key`.
pub open spec fn first_app_with_id(apps: Seq<AppEntry>, key: Seq<char>) -> Option<int>
    decreases apps.len(),
{
    if apps.len() == 0 {
        None
    } else {
        match first_app_with_id(apps.drop_last(), key) {
            Some(position) => Some(position),
            None => if apps.last().id@ == key {
                Some(apps.len() - 1)
            } else {
                None
            },
        }
    }
}

proof fn lemma_first_app_with_id_bounds(apps: Seq<AppEntry>, key: Seq<char>)
    ensures
        first_app_with_id(apps, key) is Some ==> {
            let position = first_app_with_id(apps, key)->0;
            &&& 0 <= position < apps.len()
            &&& apps[position].id@ == key
            &&& forall|k: int| 0 <= k < position ==> #[trigger] apps[k].id@ != key
        },
        first_app_with_id(apps, key) is None ==> forall|k: int|
            0 <= k < apps.len() ==> #[trigger] apps[k].id@ != key,
    decreases apps.len(),
{
    if apps.len() > 0 {
        lemma_first_app_with_id_bounds(apps.drop_last(), key);
        assert forall|k: int| 0 <= k < apps.len() - 1 implies #[trigger] apps[k] == apps.drop_last()[k] by {}
    }
}

/// The page holding the app whose tile has focus, if a tile has focus.
pub fn focused_page_index(
    focused_key: Option<&FocusKey>,
    tiles_per_page: usize,
    apps: &Vec<AppEntry>,
) -> (page: Option<usize>)
    requires
        tiles_per_page > 0,
    ensures
        page == match focused_key {
            Some(key) => match first_app_with_id(apps@, key@) {
                Some(position) => Some((position / tiles_per_page as int) as usize),
                None => None,
            },
            None => None,
        },
{
    let key = match focused_key {
        Some(key) => key,
        None => return None,
    };
    let mut i: usize = 0;
    proof {
        lemma_first_app_with_id_bounds(apps@, key@);
    }
    while i < apps.len()
        invariant
            0 <= i <= apps.len(),
            tiles_per_page > 0,
            focused_key == Some(key),
            forall|k: int| 0 <= k < i ==> #[trigger] apps@[k].id@ != key@,
            first_app_with_id(apps@, key@) is Some ==> {
                let position = first_app_with_id(apps@, key@)->0;
                &&& 0 <= position < apps@.len()
                &&& apps@[position].id@ == key@
                &&& forall|k: int| 0 <= k < position ==> #[trigger] apps@[k].id@ != key@
            },
            first_app_with_id(apps@, key@) is None ==> forall|k: int|
                0 <= k < apps@.len() ==> #[trigger] apps@[k].id@ != key@,
        decreases apps.len() - i,
    {
        if str_eq(apps[i].id(), key.name()) {
            proof {
                if first_app_with_id(apps@, key@) is Some {
                    let position = first_app_with_id(apps@, key@)->0;
                    if position < i {
                        assert(apps@[position].id@ != key@);
                    }
                    if position > i {
                        assert(apps@[i as int].id@ != key@);
                    }
                } else {
                    assert(apps@[i as int].id@ != key@);
                }
                assert(first_app_with_id(apps@, key@) == Some(i as int));
                assert((i as int / tiles_per_page as int) as usize == i / tiles_per_page);
            }
            return Some(i / tiles_per_page);
        }
        i = i + 1;
    }
    None
}

/// The page to show: the current one, moved to the focused tile's page when
/// focus moved, then moved by a scroll gesture, and never past the last page.
pub open spec fn target_page_of(
    metrics: AppGridMetrics,
    active_page: usize,
    focused_page: Option<usize>,
    page_delta: Option<isize>,
) -> int {
    let last = metrics.last_page();
    let current = if active_page <= last {
        active_page as int
    } else {
        last
    };
    let focused = match focused_page {
        Some(page) => if page <= last {
            page as int
        } else {
            last
        },
        None => current,
    };
    match page_delta {
        Some(delta) => {
            let moved = metrics.offset(focused as usize, delta);
            if moved <= last {
                moved
            } else {
                last
            }
        },
        None => focused,
    }
}

/// The page to show: `active_page` is the page shown so far, `focused_page`
/// the page of the newly focused tile, if focus moved, and `page_delta` the
/// paging asked for by scrolling, if any.
pub fn target_page(
    metrics: AppGridMetrics,
    active_page: usize,
    focused_page: Option<usize>,
    page_delta: Option<isize>,
) -> (page: usize)
    ensures
        page == target_page_of(metrics, active_page, focused_page, page_delta),
        page <= metrics.last_page(),
{
    let last = metrics.last_page_index();
    let mut target = if active_page <= last {
        active_page
    } else {
        last
    };
    if let Some(focused_page) = focused_page {
        target = if focused_page <= last {
            focused_page
        } else {
            last
        };
    }
    if let Some(delta) = page_delta {
        let moved = metrics.offset_page(target, delta);
        target = if moved <= last {
            moved
        } else {
            last
        };
    }
    target
}

/// The paging state shared by the grid and its page dots.
#[derive(Clone, Copy, PartialEq, Eq, Structural, Debug)]
pub struct AppGridState {
    pub page_count: usize,
    pub active_page: usize,
}

impl Default for AppGridState {
    fn default() -> (state: Self)
        ensures
            state.page_count == 0,
            state.active_page == 0,
    {
        AppGridState { page_count: 0, active_page: 0 }
    }
}

impl AppGridState {
    /// Brings the paging state in line with `metrics`: the page count is
    /// taken over and the active page is kept within the pages. Returns
    /// whether anything changed.
    pub fn sync_with_metrics(&mut self, metrics: AppGridMetrics) -> (changed: bool)
        ensures
            final(self).page_count == metrics.page_count,
            final(self).active_page == (if old(self).active_page <= metrics.last_page() {
                old(self).active_page as int
            } else {
                metrics.last_page()
            }),
            changed == (*final(self) != *old(self)),
    {
        let last = metrics.last_page_index();
        let active_page = if self.active_page <= last {
            self.active_page
        } else {
            last
        };
        let changed = self.active_page != active_page || self.page_count != metrics.page_count;
        if changed {
            self.active_page = active_page;
            self.page_count = metrics.page_count;
        }
        changed
    }
}

/// Pages next to the shown one are built too, so that paging can slide them
/// in; the others are left empty.
pub fn page_is_rendered(page_index: usize, active_page: usize) -> (rendered: bool)
    ensures
        rendered == (page_index <= active_page + 1 && active_page <= page_index + 1),
{
    if page_index >= active_page {
        page_index - active_page <= 1
    } else {
        active_page - page_index <= 1
    }
}

/// The apps of page `page_index`: from its first slot up to a full page or
/// the last app.
pub open spec fn page_range(metrics: AppGridMetrics, page_index: usize, app_count: usize) -> (
    int,
    int,
) {
    let first = page_index * metrics.tiles_per_page;
    let count = if app_count - first <= metrics.tiles_per_page {
        app_count - first
    } else {
        metrics.tiles_per_page as int
    };
    (first, first + count)
}

/// The positions of the first app of page `page_index` and just past its
/// last app.
pub fn page_app_range(metrics: AppGridMetrics, page_index: usize, app_count: usize) -> (range: (
    usize,
    usize,
))
    requires
        page_index * metrics.tiles_per_page <= app_count,
    ensures
        range.0 == page_range(metrics, page_index, app_count).0,
        range.1 == page_range(metrics, page_index, app_count).1,
        range.0 <= range.1 <= app_count,
{
    let first = page_index * metrics.tiles_per_page;
    let remaining = app_count - first;
    let count = if remaining <= metrics.tiles_per_page {
        remaining
    } else {
        metrics.tiles_per_page
    };
    (first, first + count)
}

/// Which apps the grid treats specially.
pub struct AppGrid {
    /// No tile takes input (a launch is running).
    pub interactions_disabled: bool,
    /// The app whose tile is hidden while its launch overlay stands in for it.
    pub hidden_app_id: Option<String>,
    /// The app whose tile takes focus first.
    pub preferred_focus_app_id: Option<String>,
    /// Without a preferred app, the very first tile takes focus first.
    pub prefer_first_tile: bool,
}

/// How one tile of a page is set up.
#[derive(Clone, Copy, PartialEq, Eq, Structural, Debug)]
pub struct TilePlan {
    /// The position of the tile's app in the app list.
    pub app_index: usize,
    pub row: usize,
    pub column: usize,
    pub preferred_focus: bool,
    pub interactions_disabled: bool,
    pub is_hidden_for_launch: bool,
}

/// Whether `id` is the app named by `choice`.
pub open spec fn names_app(choice: Option<String>, id: Seq<char>) -> bool {
    choice is Some && choice->0@ == id
}

/// The tile of the app at `app_index` takes focus first when its app is the
/// preferred one, or, without a preferred app, when it is the very first tile
/// and the grid prefers the first tile.
pub open spec fn prefers_focus(grid: AppGrid, app_id: Seq<char>, app_index: int) -> bool {
    names_app(grid.preferred_focus_app_id, app_id) || (grid.prefer_first_tile
        && grid.preferred_focus_app_id is None && app_index == 0)
}

/// `plan` sets up the `k`th tile of a page whose first app is at `first`.
pub open spec fn plans_tile(
    plan: TilePlan,
    grid: AppGrid,
    metrics: AppGridMetrics,
    apps: Seq<AppEntry>,
    first: int,
    k: int,
) -> bool {
    &&& plan.app_index == first + k
    &&& plan.row == k / metrics.columns as int
    &&& plan.column == k % metrics.columns as int
    &&& plan.preferred_focus == prefers_focus(grid, apps[first + k].id@, first + k)
    &&& plan.interactions_disabled == grid.interactions_disabled
    &&& plan.is_hidden_for_launch == names_app(grid.hidden_app_id, apps[first + k].id@)
}

fn names_app_exec(choice: &Option<String>, id: &str) -> (r: bool)
    ensures
        r == names_app(*choice, id@),
{
    match choice {
        Some(chosen) => str_eq(chosen.as_str(), id),
        None => false,
    }
}

/// The tiles of page `page_index`, row by row: which app each shows, where,
/// and how it behaves.
pub fn page_tiles(
    grid: &AppGrid,
    metrics: AppGridMetrics,
    page_index: usize,
    apps: &Vec<AppEntry>,
) -> (tiles: Vec<TilePlan>)
    requires
        metrics.columns > 0,
        page_index * metrics.tiles_per_page <= apps@.len(),
    ensures
        tiles@.len() == page_range(metrics, page_index, apps@.len() as usize).1 - page_range(
            metrics,
            page_index,
            apps@.len() as usize,
        ).0,
        forall|k: int|
            0 <= k < tiles@.len() ==> plans_tile(
                #[trigger] tiles@[k],
                *grid,
                metrics,
                apps@,
                page_range(metrics, page_index, apps@.len() as usize).0,
                k,
            ),
{
    let (first, end) = page_app_range(metrics, page_index, apps.len());
    let mut tiles: Vec<TilePlan> = Vec::new();
    let mut k: usize = 0;
    while first + k < end
        invariant
            first <= end <= apps@.len(),
            metrics.columns > 0,
            first == page_range(metrics, page_index, apps@.len() as usize).0,
            end == page_range(metrics, page_index, apps@.len() as usize).1,
            first + k <= end,
            tiles@.len() == k,
            forall|m: int|
                0 <= m < k ==> plans_tile(#[trigger] tiles@[m], *grid, metrics, apps@, first as int, m),
        decreases end - first - k,
    {
        let app_index = first + k;
        let app_id = apps[app_index].id();
        let preferred_focus = names_app_exec(&grid.preferred_focus_app_id, app_id) || (
        grid.prefer_first_tile && grid.preferred_focus_app_id.is_none() && app_index == 0);
        let ghost before = tiles@;
        tiles.push(
            TilePlan {
                app_index,
                row: k / metrics.columns,
                column: k % metrics.columns,
                preferred_focus,
                interactions_disabled: grid.interactions_disabled,
                is_hidden_for_launch: names_app_exec(&grid.hidden_app_id, app_id),
            },
        );
        assert(forall|m: int| 0 <= m < k ==> tiles@[m] == before[m]);
        k = k + 1;
    }
    tiles
}

/// The page dots' memory of the page the active dot moves from and to.
#[derive(Clone, Copy, PartialEq, Eq, Structural, Debug)]
pub struct PageDotMorphState {
    pub from_page: Option<usize>,
    pub last_target_page: Option<usize>,
}

impl Default for PageDotMorphState {
    fn default() -> (state: Self)
        ensures
            state.from_page is None,
            state.last_target_page is None,
    {
        PageDotMorphState { from_page: None, last_target_page: None }
    }
}

/// What the page dots do to their morph animation.
#[derive(Clone, Copy, PartialEq, Eq, Structural, Debug)]
pub enum MorphAnimationCommand {
    /// Rewind and play forward.
    Restart,
    /// Jump to the end.
    Finish,
}

/// The morph state and animation command once the active dot is to show
/// `target_page`: a new target morphs from the previous target (or appears in
/// place when there is none); the animation plays only between two different
/// pages.
pub open spec fn retargeted(state: PageDotMorphState, target_page: Option<usize>) -> (
    PageDotMorphState,
    Option<MorphAnimationCommand>,
) {
    if state.last_target_page != target_page {
        let from_page = if state.last_target_page is Some {
            state.last_target_page
        } else {
            target_page
        };
        let command = if from_page is Some && target_page is Some && from_page != target_page {
            MorphAnimationCommand::Restart
        } else {
            MorphAnimationCommand::Finish
        };
        (PageDotMorphState { from_page, last_target_page: target_page }, Some(command))
    } else {
        (state, None)
    }
}

impl PageDotMorphState {
    /// Moves the active dot's target to `target_page` and says what to do to
    /// the morph animation.
    pub fn retarget(&mut self, target_page: Option<usize>) -> (command: Option<
        MorphAnimationCommand,
    >)
        ensures
            (*final(self), command) == retargeted(*old(self), target_page),
    {
        if self.last_target_page != target_page {
            let from_page = match self.last_target_page {
                Some(page) => Some(page),
                None => target_page,
            };
            *self = PageDotMorphState { from_page, last_target_page: target_page };
            let moving = match (from_page, target_page) {
                (Some(from_page), Some(target_page)) => from_page != target_page,
                _ => false,
            };
            if moving {
                Some(MorphAnimationCommand::Restart)
            } else {
                Some(MorphAnimationCommand::Finish)
            }
        } else {
            None
        }
    }

    /// Whether the morph's progress is the animation's: it is complete when
    /// the dot is not moving or there is no target.
    pub fn follows_animation(&self, target_page: Option<usize>) -> (follows: bool)
        ensures
            follows == !(self.from_page == self.last_target_page || target_page is None),
    {
        !(self.from_page == self.last_target_page || target_page.is_none())
    }

    /// Once the morph is complete, the dot rests on its target.
    pub fn settle(&mut self, complete: bool)
        ensures
            final(self).last_target_page == old(self).last_target_page,
            final(self).from_page == (if complete {
                old(self).last_target_page
            } else {
                old(self).from_page
            }),
    {
        if complete {
            self.from_page = self.last_target_page;
        }
    }
}

/// When the focused tile changed since the last frame, the new focus and the
/// page of its app; `None` when focus did not move.
pub fn focus_change_page(
    last_focused_key: Option<&FocusKey>,
    focused_key: Option<&FocusKey>,
    tiles_per_page: usize,
    apps: &Vec<AppEntry>,
) -> (change: Option<Option<usize>>)
    requires
        tiles_per_page > 0,
    ensures
        ({
            let same = match (last_focused_key, focused_key) {
                (Some(a), Some(b)) => a@ == b@,
                (None, None) => true,
                _ => false,
            };
            &&& same ==> change is None
            &&& !same ==> change == Some(
                match focused_key {
                    Some(key) => match first_app_with_id(apps@, key@) {
                        Some(position) => Some((position / tiles_per_page as int) as usize),
                        None => None,
                    },
                    None => None,
                },
            )
        }),
{
    let same = match (last_focused_key, focused_key) {
        (Some(a), Some(b)) => a.same_as(b),
        (None, None) => true,
        _ => false,
    };
    if same {
        None
    } else {
        Some(focused_page_index(focused_key, tiles_per_page, apps))
    }
}

} // verus!
