use vstd::prelude::*;

verus! {

/// Number of LEDs on the strip, one per reaction button.
pub const LED_COUNT: usize = 4;

/// An 8-bit-per-channel colour as sent to a WS2812 LED.
#[derive(Clone, Copy, Debug, PartialEq, Eq, Structural)]
pub struct Rgb {
    pub r: u8,
    pub g: u8,
    pub b: u8,
}

/// A dark LED.
pub open spec fn spec_off() -> Rgb {
    Rgb { r: 0, g: 0, b: 0 }
}

/// The colour of LED `i`, which is also the colour of button `i`: red,
/// green, blue, yellow.
pub open spec fn spec_led_color(i: int) -> Rgb {
    if i == 0 {
        Rgb { r: 255, g: 0, b: 0 }
    } else if i == 1 {
        Rgb { r: 0, g: 255, b: 0 }
    } else if i == 2 {
        Rgb { r: 0, g: 0, b: 255 }
    } else {
        Rgb { r: 255, g: 255, b: 0 }
    }
}

/// A strip with every LED dark.
pub open spec fn spec_dark_frame() -> Seq<Rgb> {
    Seq::new(LED_COUNT as nat, |i: int| spec_off())
}

/// A strip with only LED `led` lit, in its own colour.
pub open spec fn spec_lit_frame(led: int) -> Seq<Rgb> {
    Seq::new(LED_COUNT as nat, |i: int| if i == led { spec_led_color(i) } else { spec_off() })
}

impl Rgb {
    /// A colour from its three channels.
    pub fn new(r: u8, g: u8, b: u8) -> (c: Rgb)
        ensures
            c == (Rgb { r, g, b }),
    {
        Rgb { r, g, b }
    }

    /// A dark LED.
    pub fn off() -> (c: Rgb)
        ensures
            c == spec_off(),
    {
        Rgb { r: 0, g: 0, b: 0 }
    }
}

/// The colour paired with button `i`.
pub fn led_color(i: usize) -> (c: Rgb)
    requires
        i < LED_COUNT,
    ensures
        c == spec_led_color(i as int),
{
    if i == 0 {
        Rgb::new(255, 0, 0)
    } else if i == 1 {
        Rgb::new(0, 255, 0)
    } else if i == 2 {
        Rgb::new(0, 0, 255)
    } else {
        Rgb::new(255, 255, 0)
    }
}

/// A frame for the whole strip with every LED dark.
pub fn dark_frame() -> (f: [Rgb; 4])
    ensures
        f@ == spec_dark_frame(),
{
    let f = [Rgb::off(), Rgb::off(), Rgb::off(), Rgb::off()];
    assert(f@ =~= spec_dark_frame());
    f
}

/// A frame for the whole strip that lights LED `led` in its own colour and
/// leaves the others dark.
pub fn lit_frame(led: usize) -> (f: [Rgb; 4])
    requires
        led < LED_COUNT,
    ensures
        f@ == spec_lit_frame(led as int),
{
    let mut f = dark_frame();
    f[led] = led_color(led);
    assert(f@ =~= spec_lit_frame(led as int));
    f
}

/// Exactly one LED of a lit frame shines, and it shows its own colour.
pub proof fn lemma_lit_frame_lights_one(led: int, i: int)
    requires
        0 <= led < LED_COUNT,
        0 <= i < LED_COUNT,
    ensures
        spec_lit_frame(led).len() == LED_COUNT,
        i == led ==> spec_lit_frame(led)[i] == spec_led_color(i) && spec_led_color(i) != spec_off(),
        i != led ==> spec_lit_frame(led)[i] == spec_off(),
{
}

/// The four LEDs are red, green, blue and yellow, in that order, so no two
/// share a colour and none is dark.
pub proof fn lemma_led_colors()
    ensures
        spec_led_color(0) == (Rgb { r: 255, g: 0, b: 0 }),
        spec_led_color(1) == (Rgb { r: 0, g: 255, b: 0 }),
        spec_led_color(2) == (Rgb { r: 0, g: 0, b: 255 }),
        spec_led_color(3) == (Rgb { r: 255, g: 255, b: 0 }),
        forall|i: int, j: int| 0 <= i < j < LED_COUNT ==> spec_led_color(i) != spec_led_color(j),
        forall|i: int| 0 <= i < LED_COUNT ==> spec_led_color(i) != spec_off(),
        spec_off() == (Rgb { r: 0, g: 0, b: 0 }),
{
}

} // verus!
