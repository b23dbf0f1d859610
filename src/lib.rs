//! Library content pipeline of a photo and video gallery: classification of
//! files by extension, the viewer's pane dispatch, the gallery's presentation
//! state, the directory listing model, and the semaphore that bounds the
//! external decoders.

mod content;
mod library;
mod list_model;
mod viewer;

pub use content::{str_equal, ViewerContentType};
pub use library::{
    AlbumsLibraryView, EnumerationEvent, GridControlsMenu, LibraryPresentationState,
    DEFAULT_GRID_WIDGET_HEIGHT, FFMPEG_CONCURRENT_PROCESSES,
};
pub use list_model::{ItemsChange, LibraryListModel};
pub use viewer::{
    ContentRoute, FullscreenToggle, MrsViewer, ViewerPane, SHOW_PROPERTIES_ACTION,
    VIEWER_ACTION_GROUP,
};
