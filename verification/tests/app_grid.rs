use momo_ui::app_grid::{
    AppGrid, AppGridMetrics, AppGridState, MorphAnimationCommand, PageDotMorphState,
    focus_change_page, focused_page_index, page_app_range, page_is_rendered, page_tiles,
    target_page,
};
use momo_ui::app_state::benchmark_apps;
use momo_ui::focus::FocusKey;

#[test]
fn metrics_count_tiles_and_pages() {
    let metrics = AppGridMetrics::from_grid_shape(4, 2, 25);
    assert_eq!(metrics.tiles_per_page, 8);
    assert_eq!(metrics.page_count, 4);
    assert_eq!(metrics.last_page_index(), 3);
    let exact = AppGridMetrics::from_grid_shape(4, 2, 24);
    assert_eq!(exact.page_count, 3);
    let empty = AppGridMetrics::from_grid_shape(4, 2, 0);
    assert_eq!(empty.page_count, 1);
    assert_eq!(empty.last_page_index(), 0);
    let degenerate = AppGridMetrics::from_grid_shape(0, 3, 5);
    assert_eq!(degenerate.tiles_per_page, 1);
    assert_eq!(degenerate.page_count, 5);
    let huge = AppGridMetrics::from_grid_shape(1, 1, usize::MAX);
    assert_eq!(huge.page_count, usize::MAX);
    let two = AppGridMetrics::from_grid_shape(2, 1, usize::MAX);
    assert_eq!(two.page_count, usize::MAX / 2 + 1);
}

#[test]
fn paging_is_clamped_to_the_pages() {
    let metrics = AppGridMetrics::from_grid_shape(4, 2, 25);
    assert_eq!(metrics.offset_page(0, -1), 0);
    assert_eq!(metrics.offset_page(2, -1), 1);
    assert_eq!(metrics.offset_page(2, 1), 3);
    assert_eq!(metrics.offset_page(3, 1), 3);
    assert_eq!(metrics.offset_page(1, isize::MAX), 3);
    assert_eq!(metrics.offset_page(3, isize::MIN), 0);
    assert_eq!(metrics.offset_page(metrics.offset_page(1, 1), -1), 1);
    assert_eq!(metrics.offset_page(usize::MAX, isize::MIN), usize::MAX - (isize::MAX as usize) - 1);
}

#[test]
fn target_page_follows_focus_then_scroll() {
    let metrics = AppGridMetrics::from_grid_shape(4, 2, 25);
    assert_eq!(target_page(metrics, 7, None, None), 3);
    assert_eq!(target_page(metrics, 0, Some(2), None), 2);
    assert_eq!(target_page(metrics, 0, Some(2), Some(1)), 3);
    assert_eq!(target_page(metrics, 1, None, Some(1)), 2);
    assert_eq!(target_page(metrics, 1, None, Some(-1)), 0);
    assert_eq!(target_page(metrics, 0, Some(9), Some(-1)), 2);
}

#[test]
fn grid_state_syncs_with_metrics() {
    let metrics = AppGridMetrics::from_grid_shape(4, 2, 25);
    let mut state = AppGridState::default();
    assert!(state.sync_with_metrics(metrics));
    assert_eq!(state, AppGridState { page_count: 4, active_page: 0 });
    assert!(!state.sync_with_metrics(metrics));
    let mut beyond = AppGridState { page_count: 4, active_page: 9 };
    assert!(beyond.sync_with_metrics(metrics));
    assert_eq!(beyond.active_page, 3);
}

#[test]
fn only_pages_next_to_the_active_one_are_built() {
    assert!(page_is_rendered(2, 2));
    assert!(page_is_rendered(1, 2));
    assert!(page_is_rendered(3, 2));
    assert!(!page_is_rendered(0, 2));
    assert!(!page_is_rendered(5, 2));
    assert!(page_is_rendered(usize::MAX, usize::MAX - 1));
}

#[test]
fn page_ranges_split_the_apps() {
    let metrics = AppGridMetrics::from_grid_shape(4, 2, 25);
    assert_eq!(page_app_range(metrics, 0, 25), (0, 8));
    assert_eq!(page_app_range(metrics, 2, 25), (16, 24));
    assert_eq!(page_app_range(metrics, 3, 25), (24, 25));
    assert_eq!(page_app_range(AppGridMetrics::from_grid_shape(4, 2, 0), 0, 0), (0, 0));
}

#[test]
fn first_tile_is_preferred_when_nothing_else_is() {
    let apps = benchmark_apps(10);
    let metrics = AppGridMetrics::from_grid_shape(3, 2, 10);
    let grid = AppGrid {
        interactions_disabled: false,
        hidden_app_id: None,
        preferred_focus_app_id: None,
        prefer_first_tile: true,
    };
    let tiles = page_tiles(&grid, metrics, 0, &apps);
    assert_eq!(tiles.len(), 6);
    assert!(tiles[0].preferred_focus);
    assert!(tiles[1..].iter().all(|tile| !tile.preferred_focus));
    assert_eq!((tiles[4].row, tiles[4].column, tiles[4].app_index), (1, 1, 4));
    let last_page = page_tiles(&grid, metrics, 1, &apps);
    assert_eq!(last_page.len(), 4);
    assert_eq!((last_page[3].row, last_page[3].column, last_page[3].app_index), (1, 0, 9));
    assert!(last_page.iter().all(|tile| !tile.preferred_focus));
}

#[test]
fn preferred_and_hidden_tiles_follow_the_launch() {
    let apps = benchmark_apps(4);
    let metrics = AppGridMetrics::from_grid_shape(2, 2, 4);
    let grid = AppGrid {
        interactions_disabled: true,
        hidden_app_id: Some("benchmark-app-2".to_string()),
        preferred_focus_app_id: Some("benchmark-app-3".to_string()),
        prefer_first_tile: true,
    };
    let tiles = page_tiles(&grid, metrics, 0, &apps);
    assert_eq!(
        tiles.iter().map(|tile| tile.preferred_focus).collect::<Vec<_>>(),
        vec![false, false, false, true]
    );
    assert_eq!(
        tiles.iter().map(|tile| tile.is_hidden_for_launch).collect::<Vec<_>>(),
        vec![false, false, true, false]
    );
    assert!(tiles.iter().all(|tile| tile.interactions_disabled));
}

#[test]
fn focused_tile_page() {
    let apps = benchmark_apps(20);
    let key = FocusKey::new("benchmark-app-13");
    assert_eq!(focused_page_index(Some(&key), 6, &apps), Some(2));
    assert_eq!(focused_page_index(Some(&FocusKey::new("dock-x")), 6, &apps), None);
    assert_eq!(focused_page_index(None, 6, &apps), None);
    assert_eq!(focus_change_page(Some(&key), Some(&FocusKey::new("benchmark-app-13")), 6, &apps), None);
    assert_eq!(focus_change_page(None, Some(&key), 6, &apps), Some(Some(2)));
    assert_eq!(focus_change_page(Some(&key), None, 6, &apps), Some(None));
}

#[test]
fn page_dot_morph_moves_then_settles() {
    let mut state = PageDotMorphState::default();
    assert_eq!(state.retarget(Some(0)), Some(MorphAnimationCommand::Finish));
    assert_eq!(state, PageDotMorphState { from_page: Some(0), last_target_page: Some(0) });
    assert!(!state.follows_animation(Some(0)));
    assert_eq!(state.retarget(Some(2)), Some(MorphAnimationCommand::Restart));
    assert_eq!(state.from_page, Some(0));
    assert!(state.follows_animation(Some(2)));
    state.settle(false);
    assert_eq!(state.from_page, Some(0));
    state.settle(true);
    assert_eq!(state.from_page, Some(2));
    assert_eq!(state.retarget(Some(2)), None);
    assert_eq!(state.retarget(None), Some(MorphAnimationCommand::Finish));
    assert!(!state.follows_animation(None));
}
