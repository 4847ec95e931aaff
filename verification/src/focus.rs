//! Focus keys and element tags: the names by which elements are found again.
use vstd::prelude::*;
use crate::text::{joined, str_eq, with_decimal_suffix, decimal};
use vstd::string::StringExecFns;

verus! {

/// The name of a focusable element.
#[derive(Debug)]
pub struct FocusKey {
    name: String,
}

impl View for FocusKey {
    type V = Seq<char>;

    closed spec fn view(&self) -> Seq<char> {
        self.name@
    }
}

impl FocusKey {
    /// The key named `name`.
    pub fn new(name: &str) -> (key: FocusKey)
        ensures
            key@ == name@,
    {
        FocusKey { name: String::from_str(name) }
    }

    /// The key named `name`.
    pub fn from_string(name: String) -> (key: FocusKey)
        ensures
            key@ == name@,
    {
        FocusKey { name }
    }

    /// The key's name.
    pub fn name(&self) -> (name: &str)
        ensures
            name@ == self@,
    {
        self.name.as_str()
    }

    /// Another key with the same name.
    pub fn duplicate(&self) -> (key: FocusKey)
        ensures
            key@ == self@,
    {
        FocusKey { name: self.name.clone() }
    }

    /// Whether both keys name the same element.
    pub fn same_as(&self, other: &FocusKey) -> (same: bool)
        ensures
            same == (self@ == other@),
    {
        str_eq(self.name.as_str(), other.name.as_str())
    }
}

/// The key of the apps entry of the home screen's top row.
pub fn home_top_row_apps_focus_key() -> (key: FocusKey)
    ensures
        key@ == "momo_home_top_row_apps"@,
{
    FocusKey::new("momo_home_top_row_apps")
}

/// The key of the settings entry of the home screen's top row.
pub fn home_top_row_settings_focus_key() -> (key: FocusKey)
    ensures
        key@ == "momo_home_top_row_settings"@,
{
    FocusKey::new("momo_home_top_row_settings")
}

/// The key of the dock icon of the app `app_id`.
pub fn dock_app_focus_key(app_id: &str) -> (key: FocusKey)
    ensures
        key@ == "dock-"@ + app_id@,
{
    FocusKey::from_string(joined("dock-", app_id))
}

/// The key of the page dot of page `page_index`.
pub fn page_dot_focus_key(page_index: usize) -> (key: FocusKey)
    ensures
        key@ == "apps-grid-page-dot-"@ + decimal(page_index as nat),
{
    FocusKey::from_string(with_decimal_suffix("apps-grid-page-dot-", page_index))
}

/// The tag of the element that holds page `page_index` of the app grid.
pub fn apps_grid_page_tag(page_index: usize) -> (tag: String)
    ensures
        tag@ == "apps-grid-page-"@ + decimal(page_index as nat),
{
    with_decimal_suffix("apps-grid-page-", page_index)
}

/// The tag of the visual of the page dot of page `page_index`.
pub fn page_dot_visual_tag(page_index: usize) -> (tag: String)
    ensures
        tag@ == "apps-grid-page-dot-visual-"@ + decimal(page_index as nat),
{
    with_decimal_suffix("apps-grid-page-dot-visual-", page_index)
}

/// The tag of the overview card of window `card_index`.
pub fn overview_card_item_tag(card_index: usize) -> (tag: String)
    ensures
        tag@ == "overview-card-item-"@ + decimal(card_index as nat),
{
    with_decimal_suffix("overview-card-item-", card_index)
}

/// The tag of the launch overlay's content for the app `app_id`.
pub fn launch_overlay_app_tag(app_id: &str) -> (tag: String)
    ensures
        tag@ == "launch-overlay-app-"@ + app_id@,
{
    joined("launch-overlay-app-", app_id)
}

/// The tag of the dock icon of the app `app_id`.
pub fn dock_app_tag(app_id: &str) -> (tag: String)
    ensures
        tag@ == "dock-app-"@ + app_id@,
{
    joined("dock-app-", app_id)
}

} // verus!
