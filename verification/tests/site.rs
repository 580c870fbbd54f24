use std::rc::Rc;

use leap::site::{switch, ContentContext, Page, Route};

#[test]
fn routes_open_their_pages() {
    assert_eq!(switch(Route::Home), Page::Dashboard);
    assert_eq!(switch(Route::Status), Page::StatusDashboard);
    assert_eq!(
        switch(Route::Playlist { playlist_id: 4 }),
        Page::VideoPlayer { playlist_id: 4, video_id: None }
    );
    assert_eq!(
        switch(Route::Video { playlist_id: 4, video_id: "abc".to_string() }),
        Page::VideoPlayer { playlist_id: 4, video_id: Some("abc".to_string()) }
    );
}

#[test]
fn reduce_replaces_sections() {
    let empty: ContentContext<u32> = ContentContext { sections: None };
    let first = ContentContext::reduce(Rc::new(empty), vec![1, 2]);
    assert_eq!(first.sections.as_deref(), Some(&vec![1, 2]));
    let second = ContentContext::reduce(first, vec![3]);
    assert_eq!(second.sections.as_deref(), Some(&vec![3]));
}
