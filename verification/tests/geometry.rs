use rem::geometry::Extent;

#[test]
fn extent_keeps_width_and_height() {
    let extent = Extent::new(1920, 1080);
    assert_eq!(extent.width, 1920);
    assert_eq!(extent.height, 1080);
    assert_eq!(extent, Extent { width: 1920, height: 1080 });
}

#[test]
fn extent_without_pixels_is_empty() {
    assert!(Extent::new(0, 0).is_empty());
    assert!(Extent::new(0, 600).is_empty());
    assert!(Extent::new(800, 0).is_empty());
    assert!(!Extent::new(800, 600).is_empty());
    assert!(!Extent::new(1, 1).is_empty());
    assert!(!Extent::new(u32::MAX, u32::MAX).is_empty());
}
