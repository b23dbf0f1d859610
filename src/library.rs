//! The library view: its presentation state (spinner, error page or
//! gallery), the grid's zoom menu, the preferences it carries, and the
//! semaphore shared with the decode tasks that it spawns.

use vstd::prelude::*;
use std::sync::Arc;
use async_semaphore::Semaphore;

verus! {

/// Initial height of a grid tile.
pub const DEFAULT_GRID_WIDGET_HEIGHT: i32 = 200;

/// How many external decoder processes may run at once.
pub const FFMPEG_CONCURRENT_PROCESSES: usize = 4;

/// `async_semaphore::Semaphore`, held opaque: the library only creates it
/// and shares it with the decode tasks.
#[verifier::external_type_specification]
#[verifier::external_body]
pub struct ExSemaphore(Semaphore);

/// The number of permits that a semaphore was made with.
pub uninterp spec fn permit_limit(s: Semaphore) -> nat;

/// Relies on `async_semaphore::Semaphore::new`, which builds a semaphore
/// for a limit of `n` concurrent operations, all of them free, and cannot
/// fail.
pub assume_specification[ Semaphore::new ](n: usize) -> (r: Semaphore)
    ensures
        permit_limit(r) == n,
;

/// What the library view shows.
#[derive(Debug, Clone, Copy, PartialEq, Eq, Structural)]
pub enum LibraryPresentationState {
    /// A spinner, while the directory is listed.
    Loading,
    /// A status page with a message: the directory could not be listed.
    Error,
    /// The grid of media.
    Gallery,
}

/// The two menus of the grid's zoom controls.
#[derive(Debug, Clone, Copy, PartialEq, Eq, Structural)]
pub enum GridControlsMenu {
    MinZoom,
    WideZoom,
}

/// A report from the listing of a directory, tagged with the generation of
/// the `set_root` call that started it.
#[derive(Debug, PartialEq, Eq)]
pub enum EnumerationEvent {
    /// A batch of one or more entries arrived.
    ItemsAdded { generation: u64 },
    /// The listing ended; it may have found nothing.
    Finished { generation: u64 },
    /// The directory could not be listed.
    Failed { generation: u64, message: String },
}

impl EnumerationEvent {
    pub open spec fn generation_of(&self) -> u64 {
        match self {
            EnumerationEvent::ItemsAdded { generation } => *generation,
            EnumerationEvent::Finished { generation } => *generation,
            EnumerationEvent::Failed { generation, .. } => *generation,
        }
    }
}

/// The state that an enumeration report of the current listing leads to.
pub open spec fn next_presentation(
    state: LibraryPresentationState,
    event: EnumerationEvent,
) -> LibraryPresentationState {
    match state {
        LibraryPresentationState::Loading => match event {
            EnumerationEvent::Failed { .. } => LibraryPresentationState::Error,
            _ => LibraryPresentationState::Gallery,
        },
        _ => state,
    }
}

/// The library view's controller.
#[derive(Debug)]
pub struct AlbumsLibraryView {
    pub subprocess_semaphore: Arc<Semaphore>,
    pub hardware_accel: bool,
    pub grid_widget_height: i32,
    pub grid_desktop_zoom: bool,
    pub grid_menu: GridControlsMenu,
    pub state: LibraryPresentationState,
    /// The message on the error page; empty unless the state is `Error`.
    pub error_message: String,
    /// Generation of the listing whose reports are current.
    pub generation: u64,
}

impl AlbumsLibraryView {
    /// A library view with the stored `hardware_accel` preference. It shows
    /// the spinner when a directory is being opened, else an empty gallery.
    pub fn new(hardware_accel: bool, opening_directory: bool) -> (r: AlbumsLibraryView)
        ensures
            permit_limit(*r.subprocess_semaphore) == FFMPEG_CONCURRENT_PROCESSES,
            r.hardware_accel == hardware_accel,
            r.grid_widget_height == DEFAULT_GRID_WIDGET_HEIGHT,
            !r.grid_desktop_zoom,
            r.grid_menu == GridControlsMenu::MinZoom,
            r.state == (if opening_directory {
                LibraryPresentationState::Loading
            } else {
                LibraryPresentationState::Gallery
            }),
            r.error_message@.len() == 0,
            r.generation == 0,
    {
        AlbumsLibraryView {
            subprocess_semaphore: Arc::new(Semaphore::new(FFMPEG_CONCURRENT_PROCESSES)),
            hardware_accel,
            grid_widget_height: DEFAULT_GRID_WIDGET_HEIGHT,
            grid_desktop_zoom: false,
            grid_menu: GridControlsMenu::MinZoom,
            state: if opening_directory {
                LibraryPresentationState::Loading
            } else {
                LibraryPresentationState::Gallery
            },
            error_message: String::new(),
            generation: 0,
        }
    }

    /// Starts listing a new directory: the spinner shows, and reports of
    /// every earlier listing are stale from now on. Returns the generation
    /// that the new listing's reports must carry.
    pub fn set_root(&mut self) -> (r: u64)
        ensures
            r == final(self).generation,
            final(self).generation != old(self).generation,
            final(self).state == LibraryPresentationState::Loading,
            final(self).error_message@.len() == 0,
            final(self).hardware_accel == old(self).hardware_accel,
            final(self).grid_widget_height == old(self).grid_widget_height,
            final(self).grid_desktop_zoom == old(self).grid_desktop_zoom,
            final(self).grid_menu == old(self).grid_menu,
    {
        self.generation = self.generation.wrapping_add(1);
        self.state = LibraryPresentationState::Loading;
        self.error_message = String::new();
        self.generation
    }

    /// Takes in a report of a listing. A report of an abandoned listing
    /// changes nothing and `false` comes back. A current one moves the
    /// spinner to the gallery, or to the error page with the report's
    /// message; in other states it changes nothing.
    pub fn on_enumeration(&mut self, event: EnumerationEvent) -> (r: bool)
        ensures
            r == (event.generation_of() == old(self).generation),
            final(self).state == (if r {
                next_presentation(old(self).state, event)
            } else {
                old(self).state
            }),
            final(self).error_message@ == (match event {
                EnumerationEvent::Failed { message, .. } => if r && old(self).state
                    == LibraryPresentationState::Loading {
                    message@
                } else {
                    old(self).error_message@
                },
                _ => old(self).error_message@,
            }),
            final(self).generation == old(self).generation,
            final(self).hardware_accel == old(self).hardware_accel,
            final(self).grid_widget_height == old(self).grid_widget_height,
            final(self).grid_desktop_zoom == old(self).grid_desktop_zoom,
            final(self).grid_menu == old(self).grid_menu,
    {
        let current = match &event {
            EnumerationEvent::ItemsAdded { generation } => *generation == self.generation,
            EnumerationEvent::Finished { generation } => *generation == self.generation,
            EnumerationEvent::Failed { generation, .. } => *generation == self.generation,
        };
        if !current {
            return false;
        }
        match self.state {
            LibraryPresentationState::Loading => match event {
                EnumerationEvent::Failed { message, .. } => {
                    self.state = LibraryPresentationState::Error;
                    self.error_message = message;
                },
                _ => {
                    self.state = LibraryPresentationState::Gallery;
                },
            },
            _ => {},
        }
        true
    }

    /// Records a change of the desktop zoom, which the layout's breakpoint
    /// makes. Whatever the value, the grid's controls go back to the
    /// minimum-zoom menu.
    pub fn set_grid_desktop_zoom(&mut self, zoom: bool)
        ensures
            final(self).grid_desktop_zoom == zoom,
            final(self).grid_menu == GridControlsMenu::MinZoom,
            final(self).state == old(self).state,
            final(self).error_message == old(self).error_message,
            final(self).generation == old(self).generation,
            final(self).hardware_accel == old(self).hardware_accel,
            final(self).grid_widget_height == old(self).grid_widget_height,
    {
        self.grid_desktop_zoom = zoom;
        self.grid_menu = GridControlsMenu::MinZoom;
    }

    /// Shows `menu` in the grid's zoom controls.
    pub fn set_grid_menu(&mut self, menu: GridControlsMenu)
        ensures
            final(self).grid_menu == menu,
            final(self).grid_desktop_zoom == old(self).grid_desktop_zoom,
            final(self).state == old(self).state,
            final(self).error_message == old(self).error_message,
            final(self).generation == old(self).generation,
            final(self).hardware_accel == old(self).hardware_accel,
            final(self).grid_widget_height == old(self).grid_widget_height,
    {
        self.grid_menu = menu;
    }

    /// Records the hardware acceleration preference, which is bound both
    /// ways to the stored setting.
    pub fn set_hardware_accel(&mut self, enabled: bool)
        ensures
            final(self).hardware_accel == enabled,
            final(self).grid_desktop_zoom == old(self).grid_desktop_zoom,
            final(self).grid_menu == old(self).grid_menu,
            final(self).state == old(self).state,
            final(self).error_message == old(self).error_message,
            final(self).generation == old(self).generation,
            final(self).grid_widget_height == old(self).grid_widget_height,
    {
        self.hardware_accel = enabled;
    }

    /// Sets the height of a grid tile.
    pub fn set_grid_widget_height(&mut self, height: i32)
        ensures
            final(self).grid_widget_height == height,
            final(self).hardware_accel == old(self).hardware_accel,
            final(self).grid_desktop_zoom == old(self).grid_desktop_zoom,
            final(self).grid_menu == old(self).grid_menu,
            final(self).state == old(self).state,
            final(self).error_message == old(self).error_message,
            final(self).generation == old(self).generation,
    {
        self.grid_widget_height = height;
    }

    /// A handle on the semaphore that bounds the decoder processes.
    pub fn subprocess_semaphore(&self) -> (r: Arc<Semaphore>)
        ensures
            r == self.subprocess_semaphore,
    {
        self.subprocess_semaphore.clone()
    }
}

/// From the spinner, one current report decides what shows next, with no
/// state in between: the gallery once entries arrive or the listing ends,
/// the error page once it fails.
pub proof fn lemma_loading_reaches_outcome(event: EnumerationEvent)
    ensures
        event is Failed ==> next_presentation(LibraryPresentationState::Loading, event)
            == LibraryPresentationState::Error,
        !(event is Failed) ==> next_presentation(LibraryPresentationState::Loading, event)
            == LibraryPresentationState::Gallery,
{
}

/// Only the spinner moves on a report: the gallery and the error page stay
/// until a new listing starts.
pub proof fn lemma_settled_states_stay(state: LibraryPresentationState, event: EnumerationEvent)
    requires
        state != LibraryPresentationState::Loading,
    ensures
        next_presentation(state, event) == state,
{
}

} // verus!
