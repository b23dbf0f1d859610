use std::sync::Arc;

use albums::{AlbumsLibraryView, ContentRoute, MrsViewer, ViewerContentType, FFMPEG_CONCURRENT_PROCESSES};
use async_semaphore::Semaphore;

#[test]
fn third_acquire_waits_until_a_release() {
    let pool = Arc::new(Semaphore::new(2));
    let first = pool.try_acquire_arc();
    let second = pool.try_acquire_arc();
    assert!(first.is_some());
    assert!(second.is_some());
    assert!(pool.try_acquire_arc().is_none());
    drop(first);
    let third = pool.try_acquire_arc();
    assert!(third.is_some());
    assert!(pool.try_acquire_arc().is_none());
}

#[test]
fn view_semaphore_has_the_decoder_limit() {
    let view = AlbumsLibraryView::new(false, false);
    let pool = view.subprocess_semaphore();
    let held: Vec<_> = (0..FFMPEG_CONCURRENT_PROCESSES).map(|_| pool.try_acquire_arc()).collect();
    assert!(held.iter().all(|g| g.is_some()));
    assert!(pool.try_acquire_arc().is_none());
    drop(held);
    assert!(pool.try_acquire_arc().is_some());
}

#[test]
fn destroying_viewer_mid_load_leaves_nothing_held() {
    let view = AlbumsLibraryView::new(false, false);
    let pool = view.subprocess_semaphore();
    let mut viewer = MrsViewer::new();
    viewer.set_content_type(&ViewerContentType::Image);
    let ticket = match viewer.set_content_file() {
        ContentRoute::ImageLoad { ticket } => ticket,
        other => panic!("unexpected route {:?}", other),
    };
    let permit = pool.try_acquire_arc();
    assert!(permit.is_some());
    viewer.destroy();
    drop(permit);
    assert!(!viewer.finish_image_load(ticket));
    let all: Vec<_> = (0..FFMPEG_CONCURRENT_PROCESSES).map(|_| pool.try_acquire_arc()).collect();
    assert!(all.iter().all(|g| g.is_some()));
}
