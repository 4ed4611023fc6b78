use firmware::leds::{dark_frame, led_color, lit_frame, Rgb};

#[test]
fn led_colors_are_red_green_blue_yellow() {
    assert_eq!(led_color(0), Rgb { r: 255, g: 0, b: 0 });
    assert_eq!(led_color(1), Rgb { r: 0, g: 255, b: 0 });
    assert_eq!(led_color(2), Rgb { r: 0, g: 0, b: 255 });
    assert_eq!(led_color(3), Rgb { r: 255, g: 255, b: 0 });
}

#[test]
fn dark_frame_is_all_off() {
    assert_eq!(dark_frame(), [Rgb::off(); 4]);
    assert_eq!(Rgb::off(), Rgb::new(0, 0, 0));
}

#[test]
fn lit_frame_lights_exactly_one_led() {
    for led in 0..4 {
        let f = lit_frame(led);
        for i in 0..4 {
            if i == led {
                assert_eq!(f[i], led_color(i));
                assert_ne!(f[i], Rgb::off());
            } else {
                assert_eq!(f[i], Rgb::off());
            }
        }
    }
}
