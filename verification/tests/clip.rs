use thunderclap::clip::ClipCache;

#[test]
fn groups_are_kept_until_a_cleanup_frame() {
    let mut cache: ClipCache<(u32, u32)> = ClipCache::new();
    cache.begin_frame();
    *cache.group(1, (0, 0)) = (10, 11);
    cache.group(2, (20, 21));
    assert!(!cache.end_frame());
    assert_eq!(cache.len(), 2);
    // The groups of a widget are found again, not made anew.
    cache.begin_frame();
    assert_eq!(*cache.group(1, (0, 0)), (10, 11));
    assert!(!cache.end_frame());
}

#[test]
fn cleanup_frame_keeps_only_the_widgets_drawn_in_it() {
    let mut cache: ClipCache<u8> = ClipCache::new();
    let mut cleaned_frames = Vec::new();
    for frame in 1..=61u32 {
        cache.begin_frame();
        cache.group(7, 0);
        if frame < 61 {
            cache.group(8, 0);
        }
        if cache.end_frame() {
            cleaned_frames.push(frame);
        }
    }
    assert_eq!(cleaned_frames, vec![61]);
    assert!(cache.contains(7));
    assert!(!cache.contains(8));
    assert_eq!(cache.len(), 1);
}
