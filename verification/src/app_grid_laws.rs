//! Laws of the paged app grid.
use vstd::prelude::*;
use crate::app_grid::{
    AppGridMetrics, MorphAnimationCommand, PageDotMorphState, page_count_for, page_range,
    retargeted,
};

verus! {

/// Metrics computed for `app_count` apps.
pub open spec fn metrics_for(metrics: AppGridMetrics, app_count: usize) -> bool {
    &&& metrics.tiles_per_page >= 1
    &&& metrics.page_count == page_count_for(app_count as int, metrics.tiles_per_page as int)
}

proof fn lemma_page_count_bounds(app_count: int, tiles_per_page: int)
    requires
        app_count >= 0,
        tiles_per_page >= 1,
    ensures
        page_count_for(app_count, tiles_per_page) >= 1,
        page_count_for(app_count, tiles_per_page) * tiles_per_page >= app_count,
        app_count > 0 ==> (page_count_for(app_count, tiles_per_page) - 1) * tiles_per_page
            < app_count,
{
    let q = app_count / tiles_per_page;
    let r = app_count % tiles_per_page;
    vstd::arithmetic::div_mod::lemma_fundamental_div_mod(app_count, tiles_per_page);
    assert(0 <= r < tiles_per_page) by {
        vstd::arithmetic::div_mod::lemma_mod_pos_bound(app_count, tiles_per_page);
    }
    assert(q >= 0) by (nonlinear_arith)
        requires
            app_count >= 0,
            tiles_per_page >= 1,
            q == app_count / tiles_per_page,
    ;
    assert(app_count == tiles_per_page * q + r);
    let n = page_count_for(app_count, tiles_per_page);
    if r != 0 {
        assert(n == q + 1);
        assert((q + 1) * tiles_per_page == tiles_per_page * q + tiles_per_page) by (nonlinear_arith);
        assert(q * tiles_per_page == tiles_per_page * q) by (nonlinear_arith);
    } else if q >= 1 {
        assert(n == q);
        assert(q * tiles_per_page == tiles_per_page * q) by (nonlinear_arith);
        assert((q - 1) * tiles_per_page == tiles_per_page * q - tiles_per_page) by (nonlinear_arith);
    } else {
        assert(n == 1);
        assert(q == 0);
        assert(tiles_per_page * q == 0) by (nonlinear_arith)
            requires
                q == 0,
        ;
        assert(app_count == 0);
    }
}

/// There are enough pages for every app, and when there are apps, no page is
/// left empty.
pub proof fn law_pages_hold_every_app_without_empty_pages(metrics: AppGridMetrics, app_count: usize)
    requires
        metrics_for(metrics, app_count),
    ensures
        metrics.page_count >= 1,
        metrics.page_count * metrics.tiles_per_page >= app_count,
        app_count > 0 ==> (metrics.page_count - 1) * metrics.tiles_per_page < app_count,
{
    lemma_page_count_bounds(app_count as int, metrics.tiles_per_page as int);
}

/// The pages split the apps into consecutive runs: the first page starts at
/// the first app, each page starts where the previous one ends, and the last
/// page ends with the last app.
pub proof fn law_pages_split_the_apps_in_order(
    metrics: AppGridMetrics,
    app_count: usize,
    page_index: usize,
)
    requires
        metrics_for(metrics, app_count),
        page_index + 1 < metrics.page_count,
    ensures
        page_range(metrics, 0, app_count).0 == 0,
        page_range(metrics, page_index, app_count).1 == page_range(
            metrics,
            (page_index + 1) as usize,
            app_count,
        ).0,
        page_range(metrics, (metrics.page_count - 1) as usize, app_count).1 == app_count,
{
    lemma_page_count_bounds(app_count as int, metrics.tiles_per_page as int);
    let t = metrics.tiles_per_page as int;
    let p = page_index as int;
    let n = metrics.page_count as int;
    assert((p + 1) * t == p * t + t) by (nonlinear_arith);
    assert(p + 1 <= n - 1);
    assert((p + 1) * t <= (n - 1) * t) by (nonlinear_arith)
        requires
            p + 1 <= n - 1,
            t >= 1,
    ;
    assert(0 * t == 0) by (nonlinear_arith);
    assert((n - 1) * t + t == n * t) by (nonlinear_arith);
    assert((n - 1) * t <= app_count) by (nonlinear_arith)
        requires
            app_count > 0 ==> (n - 1) * t < app_count,
            app_count == 0 ==> n == 1,
    ;
}

/// The app at position `app_index` is shown on page `app_index / tiles_per_page`,
/// which exists.
pub proof fn law_each_app_is_on_its_page(metrics: AppGridMetrics, app_count: usize, app_index: usize)
    requires
        metrics_for(metrics, app_count),
        app_index < app_count,
    ensures
        ({
            let page = app_index / metrics.tiles_per_page;
            &&& page < metrics.page_count
            &&& page_range(metrics, page as usize, app_count).0 <= app_index
            &&& app_index < page_range(metrics, page as usize, app_count).1
        }),
{
    lemma_page_count_bounds(app_count as int, metrics.tiles_per_page as int);
    let t = metrics.tiles_per_page as int;
    let i = app_index as int;
    let page = i / t;
    let n = metrics.page_count as int;
    vstd::arithmetic::div_mod::lemma_fundamental_div_mod(i, t);
    vstd::arithmetic::div_mod::lemma_mod_pos_bound(i, t);
    assert(page * t == t * page) by (nonlinear_arith);
    assert(page * t <= i);
    assert(i < (page + 1) * t) by (nonlinear_arith)
        requires
            i == t * page + i % t,
            i % t < t,
    ;
    if page >= n {
        assert(page * t >= n * t) by (nonlinear_arith)
            requires
                page >= n,
                t >= 1,
        ;
    }
}

/// Paging forward and then back, or back and then forward, returns to the page
/// one started from, whenever the first step could be taken.
pub proof fn law_paging_back_and_forth_returns(metrics: AppGridMetrics, page_index: usize)
    requires
        metrics.page_count >= 1,
    ensures
        page_index < metrics.last_page() ==> metrics.offset(
            metrics.offset(page_index, 1) as usize,
            -1isize,
        ) == page_index,
        0 < page_index <= metrics.last_page() ==> metrics.offset(
            metrics.offset(page_index, -1isize) as usize,
            1,
        ) == page_index,
{
}

/// Paging from a page that exists always lands on a page that exists.
pub proof fn law_paging_stays_within_the_pages(
    metrics: AppGridMetrics,
    page_index: usize,
    delta: isize,
)
    requires
        metrics.page_count >= 1,
        page_index <= metrics.last_page(),
    ensures
        0 <= metrics.offset(page_index, delta) <= metrics.last_page(),
{
}

/// Moving the active dot to a new page starts the morph animation; once the
/// morph is complete and has settled, asking for the same page again changes
/// nothing.
pub proof fn law_page_dot_morph_settles(state: PageDotMorphState, target_page: usize)
    requires
        state.last_target_page is Some,
        state.last_target_page != Some(target_page),
    ensures
        ({
            let (moved, command) = retargeted(state, Some(target_page));
            let settled = PageDotMorphState { from_page: moved.last_target_page, ..moved };
            &&& command == Some(MorphAnimationCommand::Restart)
            &&& moved.from_page == state.last_target_page
            &&& settled.from_page == Some(target_page)
            &&& retargeted(settled, Some(target_page)) == (settled, None::<MorphAnimationCommand>)
        }),
{
}

} // verus!
