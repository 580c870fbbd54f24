//! Routing and content state of the main LEAP site.
//!
//! The site shows a dashboard, playlists of videos, a video player and a
//! status page. Each [`Route`] is shown by one [`Page`]. The content
//! metadata that the server sends is kept in a [`ContentContext`].
use std::rc::Rc;
use vstd::prelude::*;

verus! {

/// Represents the possible routes in the application.
#[derive(Debug, Clone, PartialEq, Eq)]
pub enum Route {
    /// The home page, displaying the dashboard.
    Home,
    /// A playlist view, identified by its unique ID.
    Playlist { playlist_id: usize },
    /// A video playback view within a specific playlist.
    Video { playlist_id: usize, video_id: String },
    /// The application status dashboard.
    Status,
}

/// The page that shows a route, with the properties it is given.
#[derive(Debug, Clone, PartialEq, Eq)]
pub enum Page {
    /// The dashboard.
    Dashboard,
    /// The video player, on a playlist and, where one is chosen, a video of it.
    VideoPlayer { playlist_id: usize, video_id: Option<String> },
    /// The status dashboard.
    StatusDashboard,
}

/// The page that shows the route `route`.
pub open spec fn spec_page(route: Route) -> Page {
    match route {
        Route::Home => Page::Dashboard,
        Route::Playlist { playlist_id } => Page::VideoPlayer { playlist_id, video_id: None },
        Route::Video { playlist_id, video_id } => Page::VideoPlayer {
            playlist_id,
            video_id: Some(video_id),
        },
        Route::Status => Page::StatusDashboard,
    }
}

/// Chooses the page that shows the route `route`: a playlist opens the video
/// player with no video chosen, and a video opens it on that video.
pub fn switch(route: Route) -> (r: Page)
    ensures
        r == spec_page(route),
{
    match route {
        Route::Home => Page::Dashboard,
        Route::Playlist { playlist_id } => Page::VideoPlayer { playlist_id, video_id: None },
        Route::Video { playlist_id, video_id } => Page::VideoPlayer {
            playlist_id,
            video_id: Some(video_id),
        },
        Route::Status => Page::StatusDashboard,
    }
}

/// Routes are shown by pages without loss: two routes shown by the same page
/// are the same route.
pub proof fn lemma_switch_is_injective(a: Route, b: Route)
    ensures
        spec_page(a) == spec_page(b) ==> a == b,
{
}

/// The content state of the site: the sections of content that the server
/// last reported, or `None` before any report arrived.
#[derive(Debug, Clone, PartialEq)]
pub struct ContentContext<T> {
    /// The sections of content, once reported.
    pub sections: Option<Rc<Vec<T>>>,
}

impl<T> ContentContext<T> {
    /// The state after the server reported the sections `action`: they
    /// replace whatever was reported before.
    pub fn reduce(_state: Rc<Self>, action: Vec<T>) -> (r: Rc<Self>)
        ensures
            r.sections matches Some(sections) && *sections == action,
    {
        Rc::new(ContentContext { sections: Some(Rc::new(action)) })
    }
}

} // verus!
