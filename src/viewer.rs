//! The single-item viewer: which pane shows a kind of content, where a file
//! goes once a pane is chosen, its action group and its fullscreen toggle.

use vstd::prelude::*;
use crate::content::ViewerContentType;

verus! {

/// Name of the action group that the viewer installs on its window.
pub const VIEWER_ACTION_GROUP: &'static str = "viewer";

/// Name of the action that shows or hides the properties sidebar.
pub const SHOW_PROPERTIES_ACTION: &'static str = "show-properties";

/// The panes of the viewer's stack.
#[derive(Debug, Clone, Copy, PartialEq, Eq, Structural)]
pub enum ViewerPane {
    /// Renders a file directly in a picture widget.
    Render,
    /// Shows a texture decoded by the sandboxed image loader.
    Image,
    /// Plays a file in the video widget.
    Video,
}

/// Where `set_content_file` sends a file.
#[derive(Debug, Clone, Copy, PartialEq, Eq, Structural)]
pub enum ContentRoute {
    /// Hand the file to the picture widget.
    PictureFile,
    /// Decode the file with the image loader; the result is applied only if
    /// `finish_image_load` accepts the ticket.
    ImageLoad { ticket: u64 },
    /// Hand the file to the video widget.
    VideoFile,
}

/// The pane that displays a kind of content; none for invalid content.
pub open spec fn pane_for_content(kind: ViewerContentType) -> Option<ViewerPane> {
    match kind {
        ViewerContentType::VectorGraphics => Some(ViewerPane::Image),
        ViewerContentType::Image => Some(ViewerPane::Image),
        ViewerContentType::Video => Some(ViewerPane::Video),
        ViewerContentType::Invalid => None,
    }
}

/// The stack's name of a pane.
pub open spec fn pane_name_of(pane: ViewerPane) -> Seq<char> {
    match pane {
        ViewerPane::Render => "render"@,
        ViewerPane::Image => "image"@,
        ViewerPane::Video => "video"@,
    }
}

/// The pane whose stack name is `name`, if any.
pub open spec fn pane_of_name(name: Seq<char>) -> Option<ViewerPane> {
    if name == "render"@ {
        Some(ViewerPane::Render)
    } else if name == "image"@ {
        Some(ViewerPane::Image)
    } else if name == "video"@ {
        Some(ViewerPane::Video)
    } else {
        None
    }
}

/// Whether the texture of the load with `ticket` may be shown by `viewer`:
/// only that of its latest load, and only while it exists.
pub open spec fn load_applies(viewer: MrsViewer, ticket: u64) -> bool {
    !viewer.destroyed && ticket == viewer.load_generation
}

/// The tooltip of the fullscreen button after a toggle from `was_fullscreen`.
pub open spec fn fullscreen_tooltip(was_fullscreen: bool) -> Seq<char> {
    if was_fullscreen {
        "View Fullscreen"@
    } else {
        "Exit Fullscreen"@
    }
}

impl ViewerPane {
    /// The stack's name of this pane.
    pub fn name(&self) -> (r: &'static str)
        ensures
            r@ == pane_name_of(*self),
    {
        match self {
            ViewerPane::Render => "render",
            ViewerPane::Image => "image",
            ViewerPane::Video => "video",
        }
    }

    /// The pane with the stack name `name`; `None` for a name that no pane has.
    pub fn from_name(name: &str) -> (r: Option<ViewerPane>)
        ensures
            r == pane_of_name(name@),
    {
        if crate::content::str_equal(name, "render") {
            Some(ViewerPane::Render)
        } else if crate::content::str_equal(name, "image") {
            Some(ViewerPane::Image)
        } else if crate::content::str_equal(name, "video") {
            Some(ViewerPane::Video)
        } else {
            None
        }
    }
}

/// What a fullscreen toggle does to the window and the button.
#[derive(Debug, Clone, Copy)]
pub struct FullscreenToggle {
    /// Whether the window is fullscreen afterwards.
    pub fullscreened: bool,
    /// The untranslated tooltip that the button shows afterwards.
    pub tooltip: &'static str,
}

/// The viewer's state: the visible pane, the sidebar, whether its actions are
/// installed, and the image loads that it has started.
#[derive(Debug)]
pub struct MrsViewer {
    pub visible_pane: ViewerPane,
    pub shows_sidebar: bool,
    pub actions_installed: bool,
    /// Ticket of the most recent image load.
    pub load_generation: u64,
    /// Set once the viewer is destroyed: no load result is applied after.
    pub destroyed: bool,
}

impl MrsViewer {
    /// A viewer showing the image pane, with the sidebar hidden and no
    /// action installed yet.
    pub fn new() -> (r: MrsViewer)
        ensures
            r.visible_pane == ViewerPane::Image,
            !r.shows_sidebar,
            !r.actions_installed,
            r.load_generation == 0,
            !r.destroyed,
    {
        MrsViewer {
            visible_pane: ViewerPane::Image,
            shows_sidebar: false,
            actions_installed: false,
            load_generation: 0,
            destroyed: false,
        }
    }

    /// Installs the `viewer` action group with its `show-properties` action.
    pub fn setup_gactions(&mut self)
        ensures
            final(self).actions_installed,
            final(self).visible_pane == old(self).visible_pane,
            final(self).shows_sidebar == old(self).shows_sidebar,
            final(self).load_generation == old(self).load_generation,
            final(self).destroyed == old(self).destroyed,
    {
        self.actions_installed = true;
    }

    /// Activates the action `action` of the group `group`. Only
    /// `viewer.show-properties` exists, once installed and while the viewer
    /// is not destroyed: it toggles the sidebar. Returns whether an action
    /// ran.
    pub fn activate_action(&mut self, group: &str, action: &str) -> (r: bool)
        ensures
            r == (!old(self).destroyed && old(self).actions_installed && group@
                == VIEWER_ACTION_GROUP@ && action@ == SHOW_PROPERTIES_ACTION@),
            final(self).shows_sidebar == (if r {
                !old(self).shows_sidebar
            } else {
                old(self).shows_sidebar
            }),
            final(self).visible_pane == old(self).visible_pane,
            final(self).actions_installed == old(self).actions_installed,
            final(self).load_generation == old(self).load_generation,
            final(self).destroyed == old(self).destroyed,
    {
        if !self.destroyed && self.actions_installed && crate::content::str_equal(
            group,
            VIEWER_ACTION_GROUP,
        )
            && crate::content::str_equal(action, SHOW_PROPERTIES_ACTION) {
            self.shows_sidebar = !self.shows_sidebar;
            true
        } else {
            false
        }
    }

    /// Shows the pane for `content_type`; invalid content changes nothing.
    pub fn set_content_type(&mut self, content_type: &ViewerContentType)
        ensures
            final(self).visible_pane == (match pane_for_content(*content_type) {
                Some(pane) => pane,
                None => old(self).visible_pane,
            }),
            final(self).shows_sidebar == old(self).shows_sidebar,
            final(self).actions_installed == old(self).actions_installed,
            final(self).load_generation == old(self).load_generation,
            final(self).destroyed == old(self).destroyed,
    {
        match content_type {
            ViewerContentType::VectorGraphics => self.visible_pane = ViewerPane::Image,
            ViewerContentType::Image => self.visible_pane = ViewerPane::Image,
            ViewerContentType::Video => self.visible_pane = ViewerPane::Video,
            ViewerContentType::Invalid => {},
        }
    }

    /// Where a file goes on the visible pane. On the image pane this starts
    /// a load with a fresh ticket, which makes every earlier ticket stale.
    pub fn set_content_file(&mut self) -> (r: ContentRoute)
        ensures
            r == (match old(self).visible_pane {
                ViewerPane::Render => ContentRoute::PictureFile,
                ViewerPane::Image => ContentRoute::ImageLoad {
                    ticket: final(self).load_generation,
                },
                ViewerPane::Video => ContentRoute::VideoFile,
            }),
            old(self).visible_pane == ViewerPane::Image ==> final(self).load_generation
                != old(self).load_generation,
            old(self).visible_pane != ViewerPane::Image ==> final(self).load_generation
                == old(self).load_generation,
            final(self).visible_pane == old(self).visible_pane,
            final(self).shows_sidebar == old(self).shows_sidebar,
            final(self).actions_installed == old(self).actions_installed,
            final(self).destroyed == old(self).destroyed,
    {
        match self.visible_pane {
            ViewerPane::Render => ContentRoute::PictureFile,
            ViewerPane::Image => {
                self.load_generation = self.load_generation.wrapping_add(1);
                ContentRoute::ImageLoad { ticket: self.load_generation }
            },
            ViewerPane::Video => ContentRoute::VideoFile,
        }
    }

    /// Whether the texture of the load with `ticket` may be shown: only the
    /// latest load of a viewer that still exists.
    pub fn finish_image_load(&self, ticket: u64) -> (r: bool)
        ensures
            r == load_applies(*self, ticket),
    {
        !self.destroyed && ticket == self.load_generation
    }

    /// Marks the viewer destroyed: no load started before is applied.
    pub fn destroy(&mut self)
        ensures
            final(self).destroyed,
            final(self).visible_pane == old(self).visible_pane,
            final(self).shows_sidebar == old(self).shows_sidebar,
            final(self).actions_installed == old(self).actions_installed,
            final(self).load_generation == old(self).load_generation,
    {
        self.destroyed = true;
    }

    /// The untranslated title of the navigation page that wraps the viewer.
    pub fn wrap_in_navigation_page(&self) -> (r: &'static str)
        ensures
            r@ == "Loading Content"@,
    {
        "Loading Content"
    }

    /// Toggles fullscreen from `fullscreen`, the window's current state.
    pub fn fullscreen_toggle(&self, fullscreen: bool) -> (r: FullscreenToggle)
        ensures
            r.fullscreened == !fullscreen,
            r.tooltip@ == fullscreen_tooltip(fullscreen),
    {
        if !fullscreen {
            FullscreenToggle { fullscreened: true, tooltip: "Exit Fullscreen" }
        } else {
            FullscreenToggle { fullscreened: false, tooltip: "View Fullscreen" }
        }
    }
}

/// Once a viewer is destroyed, the result of no image load is applied.
pub proof fn lemma_no_load_applied_after_destroy(v: MrsViewer, ticket: u64)
    requires
        v.destroyed,
    ensures
        !load_applies(v, ticket),
{
}

/// Toggling from windowed reads "Exit Fullscreen"; toggling from fullscreen
/// reads "View Fullscreen"; toggling twice returns to the first state.
pub proof fn lemma_fullscreen_tooltip(fullscreen: bool)
    ensures
        !fullscreen ==> fullscreen_tooltip(fullscreen) == "Exit Fullscreen"@,
        fullscreen ==> fullscreen_tooltip(fullscreen) == "View Fullscreen"@,
        fullscreen_tooltip(!fullscreen) != fullscreen_tooltip(fullscreen),
{
    reveal_strlit("Exit Fullscreen");
    reveal_strlit("View Fullscreen");
    assert("Exit Fullscreen"@[0] != "View Fullscreen"@[0]);
}

} // verus!
