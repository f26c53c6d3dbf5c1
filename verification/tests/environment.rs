use tiny_rpg::helper::Builder;
use tiny_rpg::math::Dimension;
use tiny_rpg::start::Environment;

#[test]
fn environment_defaults() {
    let env = Environment::new().build().unwrap();
    assert_eq!(env.get_tile_size(), 32);
    assert_eq!(env.get_window_size(), Dimension::new(960, 640));
    assert_eq!(env.get_window_width(), 960);
    assert_eq!(env.get_window_height(), 640);
    assert_eq!(env.get_window_title(), "Application");
}

#[test]
fn environment_title_and_tile_size() {
    let env = Environment::new()
        .set_title("An RPG")
        .set_tile_size(16)
        .build()
        .unwrap();
    assert_eq!(env.get_window_title(), "An RPG");
    assert_eq!(env.get_tile_size(), 16);
    let env2 = Environment::new().set_window_title("Another").build().unwrap();
    assert_eq!(env2.get_window_title(), "Another");
}

#[test]
fn environment_dimensions() {
    let env = Environment::new()
        .set_window_dimensions(Dimension::new(100, 200))
        .build()
        .unwrap();
    assert_eq!(env.get_window_size(), Dimension::new(100, 200));
}

#[test]
fn environment_height_and_width_setters_are_wired_crosswise() {
    // set_window_height writes the width component and set_window_width
    // the height component.
    let env = Environment::new()
        .set_window_height(111)
        .set_window_width(222)
        .build()
        .unwrap();
    assert_eq!(env.get_window_size(), Dimension::new(111, 222));
}
