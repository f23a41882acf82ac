use image_viewer::window::{
    window_config, Size, INITIAL_HEIGHT, INITIAL_WIDTH, MIN_HEIGHT, MIN_WIDTH,
};

#[test]
fn startup_window_sizes() {
    let c = window_config();
    assert_eq!(c.inner_size, Size { width: 640, height: 480 });
    assert_eq!(c.min_inner_size, Size { width: 300, height: 220 });
}

#[test]
fn startup_window_title() {
    assert_eq!(window_config().title, "My Image Viewer");
}

#[test]
fn size_constants_match_config() {
    let c = window_config();
    assert_eq!((INITIAL_WIDTH, INITIAL_HEIGHT), (c.inner_size.width, c.inner_size.height));
    assert_eq!((MIN_WIDTH, MIN_HEIGHT), (c.min_inner_size.width, c.min_inner_size.height));
}

#[test]
fn initial_size_not_below_minimum() {
    let c = window_config();
    assert!(c.inner_size.width >= c.min_inner_size.width);
    assert!(c.inner_size.height >= c.min_inner_size.height);
}
