use albums::{
    AlbumsLibraryView, EnumerationEvent, GridControlsMenu, LibraryPresentationState,
    DEFAULT_GRID_WIDGET_HEIGHT,
};

#[test]
fn new_view_initial_state() {
    let v = AlbumsLibraryView::new(true, true);
    assert_eq!(v.state, LibraryPresentationState::Loading);
    assert!(v.hardware_accel);
    assert_eq!(v.grid_widget_height, DEFAULT_GRID_WIDGET_HEIGHT);
    assert!(!v.grid_desktop_zoom);
    assert_eq!(v.grid_menu, GridControlsMenu::MinZoom);
    let v = AlbumsLibraryView::new(false, false);
    assert_eq!(v.state, LibraryPresentationState::Gallery);
    assert!(!v.hardware_accel);
}

#[test]
fn listing_success_shows_gallery() {
    let mut v = AlbumsLibraryView::new(false, false);
    let g = v.set_root();
    assert_eq!(v.state, LibraryPresentationState::Loading);
    assert!(v.on_enumeration(EnumerationEvent::ItemsAdded { generation: g }));
    assert_eq!(v.state, LibraryPresentationState::Gallery);
}

#[test]
fn empty_listing_shows_gallery() {
    let mut v = AlbumsLibraryView::new(false, true);
    assert!(v.on_enumeration(EnumerationEvent::Finished { generation: 0 }));
    assert_eq!(v.state, LibraryPresentationState::Gallery);
}

#[test]
fn listing_failure_shows_error() {
    let mut v = AlbumsLibraryView::new(false, true);
    let event = EnumerationEvent::Failed { generation: 0, message: "no such directory".to_string() };
    assert!(v.on_enumeration(event));
    assert_eq!(v.state, LibraryPresentationState::Error);
    assert_eq!(v.error_message, "no such directory");
    let g = v.set_root();
    assert_eq!(v.state, LibraryPresentationState::Loading);
    assert_eq!(v.error_message, "");
    assert!(v.on_enumeration(EnumerationEvent::Finished { generation: g }));
    assert_eq!(v.state, LibraryPresentationState::Gallery);
}

#[test]
fn stale_reports_are_ignored() {
    let mut v = AlbumsLibraryView::new(false, true);
    let old = v.generation;
    let g = v.set_root();
    assert_ne!(old, g);
    let event = EnumerationEvent::Failed { generation: old, message: "gone".to_string() };
    assert!(!v.on_enumeration(event));
    assert_eq!(v.state, LibraryPresentationState::Loading);
    assert!(v.on_enumeration(EnumerationEvent::ItemsAdded { generation: g }));
    assert_eq!(v.state, LibraryPresentationState::Gallery);
}

#[test]
fn gallery_stays_on_later_reports() {
    let mut v = AlbumsLibraryView::new(false, true);
    v.on_enumeration(EnumerationEvent::ItemsAdded { generation: 0 });
    let event = EnumerationEvent::Failed { generation: 0, message: "late".to_string() };
    assert!(v.on_enumeration(event));
    assert_eq!(v.state, LibraryPresentationState::Gallery);
    assert_eq!(v.error_message, "");
}

#[test]
fn desktop_zoom_changes_reset_menu() {
    let mut v = AlbumsLibraryView::new(false, false);
    v.set_grid_menu(GridControlsMenu::WideZoom);
    v.set_grid_desktop_zoom(true);
    assert!(v.grid_desktop_zoom);
    assert_eq!(v.grid_menu, GridControlsMenu::MinZoom);
    v.set_grid_menu(GridControlsMenu::WideZoom);
    v.set_grid_desktop_zoom(false);
    assert!(!v.grid_desktop_zoom);
    assert_eq!(v.grid_menu, GridControlsMenu::MinZoom);
}

#[test]
fn preferences_are_recorded() {
    let mut v = AlbumsLibraryView::new(false, false);
    v.set_hardware_accel(true);
    assert!(v.hardware_accel);
    v.set_grid_widget_height(320);
    assert_eq!(v.grid_widget_height, 320);
}

#[test]
fn semaphore_is_shared() {
    let v = AlbumsLibraryView::new(false, false);
    let handle = v.subprocess_semaphore();
    assert!(std::sync::Arc::ptr_eq(&handle, &v.subprocess_semaphore));
}
