use led_frame::color::Color;
use led_frame::scene::{
    display_palette_color, label_text, led_palette_color, next_palette_index, smiley_shapes,
    Point, Shape, PALETTE_LEN,
};

#[test]
fn scene_holds_label_circles_and_triangle() {
    let shapes = smiley_shapes();
    assert_eq!(
        shapes,
        vec![
            Shape::Label { top_left: Point { x: 100, y: 100 } },
            Shape::Circle { top_left: Point { x: 50, y: 100 }, diameter: 40 },
            Shape::Circle { top_left: Point { x: 50, y: 200 }, diameter: 40 },
            Shape::Triangle {
                a: Point { x: 130, y: 140 },
                b: Point { x: 130, y: 200 },
                c: Point { x: 160, y: 170 },
            },
        ]
    );
}

#[test]
fn label_greets_the_world() {
    assert_eq!(label_text(), "Hello World!");
}

#[test]
fn led_palette_matches_the_named_colour_table() {
    // The LED palette cycles through the named colours blue, red, yellow,
    // green, with the exact values of the standard named-colour table,
    // which gives green at half intensity.
    let named = [
        smart_leds::colors::BLUE,
        smart_leds::colors::RED,
        smart_leds::colors::YELLOW,
        smart_leds::colors::GREEN,
    ];
    for (i, want) in named.iter().enumerate() {
        let c = led_palette_color(i);
        assert_eq!((c.red, c.green, c.blue), (want.r, want.g, want.b));
    }
    assert_eq!(led_palette_color(3), Color::new(0, 128, 0));
}

#[test]
fn display_palette_is_full_intensity() {
    assert_eq!(display_palette_color(0), Color::new(0, 0, 255));
    assert_eq!(display_palette_color(1), Color::new(255, 0, 0));
    assert_eq!(display_palette_color(2), Color::new(255, 255, 0));
    assert_eq!(display_palette_color(3), Color::new(0, 255, 0));
}

#[test]
fn palette_index_wraps_after_the_last_colour() {
    assert_eq!(PALETTE_LEN, 4);
    assert_eq!(next_palette_index(0), 1);
    assert_eq!(next_palette_index(1), 2);
    assert_eq!(next_palette_index(2), 3);
    assert_eq!(next_palette_index(3), 0);
}
