//! What to do with one presence-broadcast icon in the local cache.
//!
//! For each icon the asset list names, the settings page either downloads it
//! into the cache or offers the already-cached copy for selection; a stale
//! file left at the pre-reorganisation path is removed first. The caller
//! checks the filesystem and performs the actions.

use vstd::prelude::*;

verus! {

/// What the cache maintenance does for one icon.
#[derive(Debug, Clone, Copy, PartialEq, Eq, Structural)]
pub struct IconCacheAction {
    /// Remove the file left at the old cache location.
    pub remove_old_file: bool,
    /// Fetch the icon into the cache; it is not offered until then.
    pub download: bool,
    /// Offer the cached icon, marked as the currently selected one.
    pub offer_selected: bool,
    /// Offer the cached icon, unselected.
    pub offer_unselected: bool,
}

/// Decide what happens to one icon: a file at the old location is removed;
/// an icon not yet cached is downloaded and not offered; a cached icon is
/// offered, selected exactly when its name is the configured one.
pub fn icon_cache_action(
    old_path_is_file: bool,
    cache_file_exists: bool,
    icon_name: &String,
    selected_icon: &String,
) -> (a: IconCacheAction)
    ensures
        a.remove_old_file == old_path_is_file,
        a.download == !cache_file_exists,
        a.offer_selected == (cache_file_exists && icon_name@ == selected_icon@),
        a.offer_unselected == (cache_file_exists && icon_name@ != selected_icon@),
{
    let selected = cache_file_exists && *icon_name == *selected_icon;
    IconCacheAction {
        remove_old_file: old_path_is_file,
        download: !cache_file_exists,
        offer_selected: selected,
        offer_unselected: cache_file_exists && !selected,
    }
}

} // verus!
