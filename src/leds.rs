//! The colour buffer of the LED bars.
//!
//! The bars hold a fixed number of lights. Their colours live in memory and
//! change only through [`Leds`]; the strip shows them when the caller pushes
//! [`Leds::frames`] to it, one frame per light, in index order.

use vstd::prelude::*;

verus! {

/// The number of lights on the LED bars.
pub const LED_COUNT: usize = 10;

/// A colour of one light, one byte per channel.
#[derive(Clone, Copy, Debug, PartialEq, Eq, Structural)]
pub struct Color {
    pub r: u8,
    pub g: u8,
    pub b: u8,
}

/// A light that is off.
pub open spec fn black() -> Color {
    Color { r: 0, g: 0, b: 0 }
}

/// One channel scaled by a brightness on the 0-255 scale, rounding down.
pub open spec fn scale_channel(c: u8, brightness: int) -> int {
    c as int * brightness / 255
}

/// A colour with each channel scaled by a brightness on the 0-255 scale.
pub open spec fn scale(color: Color, brightness: int) -> Color {
    Color {
        r: scale_channel(color.r, brightness) as u8,
        g: scale_channel(color.g, brightness) as u8,
        b: scale_channel(color.b, brightness) as u8,
    }
}

/// The bytes that the strip is sent for one light: red, green, blue.
pub open spec fn frame_of(color: Color) -> Seq<u8> {
    seq![color.r, color.g, color.b]
}

fn scale_channel_exec(c: u8, brightness: u16) -> (r: u8)
    requires
        brightness <= 255,
    ensures
        r == scale_channel(c, brightness as int),
{
    proof {
        assert(c as int * brightness as int <= 255 * 255) by (nonlinear_arith)
            requires
                c <= 255,
                brightness <= 255,
        ;
        assert(c as int * brightness as int / 255 <= 255) by (nonlinear_arith)
            requires
                0 <= c as int * brightness as int <= 255 * 255,
        ;
    }
    (c as u16 * brightness / 255) as u8
}

impl Color {
    /// A light that is off.
    pub fn black() -> (r: Color)
        ensures
            r == black(),
    {
        Color { r: 0, g: 0, b: 0 }
    }

    /// The bytes that the strip is sent for this light: red, green, blue.
    pub fn frame(self) -> (r: [u8; 3])
        ensures
            r@ == frame_of(self),
    {
        let r = [self.r, self.g, self.b];
        assert(r@ =~= frame_of(self));
        r
    }
}

/// Dimming a colour by a brightness.
pub trait WithBrightness<T: Sized>: Sized {
    /// Whether `brightness` lies on the 0-255 scale.
    spec fn brightness_in_range(brightness: T) -> bool;

    /// The colour with each channel scaled by `brightness / 255`, rounding down.
    fn with_brightness(self, brightness: T) -> Self
        requires
            Self::brightness_in_range(brightness),
    ;
}

impl WithBrightness<u16> for Color {
    open spec fn brightness_in_range(brightness: u16) -> bool {
        brightness <= 255
    }

    fn with_brightness(self, brightness: u16) -> (r: Color)
        ensures
            r == scale(self, brightness as int),
    {
        Color {
            r: scale_channel_exec(self.r, brightness),
            g: scale_channel_exec(self.g, brightness),
            b: scale_channel_exec(self.b, brightness),
        }
    }
}

impl WithBrightness<u8> for Color {
    open spec fn brightness_in_range(brightness: u8) -> bool {
        true
    }

    fn with_brightness(self, brightness: u8) -> (r: Color)
        ensures
            r == scale(self, brightness as int),
    {
        Color {
            r: scale_channel_exec(self.r, brightness as u16),
            g: scale_channel_exec(self.g, brightness as u16),
            b: scale_channel_exec(self.b, brightness as u16),
        }
    }
}

/// Full brightness leaves a colour as it is.
pub proof fn lemma_full_brightness_keeps_color(color: Color)
    ensures
        scale(color, 255) == color,
{
}

/// Zero brightness turns any colour off.
pub proof fn lemma_zero_brightness_is_black(color: Color)
    ensures
        scale(color, 0) == black(),
{
}

/// A light index past the end of the bars.
#[derive(Clone, Copy, Debug, PartialEq, Eq, Structural)]
pub struct OutOfBounds {
    /// The index that was asked for.
    pub index: usize,
}

/// The colours of the lights, in index order.
pub struct Leds {
    lights: Vec<Color>,
}

impl View for Leds {
    type V = Seq<Color>;

    closed spec fn view(&self) -> Seq<Color> {
        self.lights@
    }
}

/// `LED_COUNT` lights of one colour.
pub open spec fn uniform(color: Color) -> Seq<Color> {
    Seq::new(LED_COUNT as nat, |i: int| color)
}

impl Leds {
    #[verifier::type_invariant]
    spec fn inv(self) -> bool {
        self.lights@.len() == LED_COUNT
    }

    fn uniform_lights(color: Color) -> (r: Vec<Color>)
        ensures
            r@ == uniform(color),
    {
        let mut lights: Vec<Color> = Vec::new();
        let mut i: usize = 0;
        while i < LED_COUNT
            invariant
                i <= LED_COUNT,
                lights@ =~= Seq::new(i as nat, |j: int| color),
            decreases LED_COUNT - i,
        {
            lights.push(color);
            i = i + 1;
        }
        lights
    }

    /// A buffer with every light off.
    pub fn new() -> (r: Leds)
        ensures
            r@ == uniform(black()),
    {
        Leds { lights: Self::uniform_lights(Color::black()) }
    }

    /// Sets the light at `index` to `color`, leaving the others as they were.
    /// An index past the last light changes nothing and is an error.
    pub fn set_color_at_index(&mut self, index: usize, color: Color) -> (r: Result<(), OutOfBounds>)
        ensures
            index < LED_COUNT ==> r is Ok && final(self)@ == old(self)@.update(index as int, color),
            index >= LED_COUNT ==> r == Err::<(), OutOfBounds>(OutOfBounds { index })
                && final(self)@ == old(self)@,
    {
        proof {
            use_type_invariant(&*self);
        }
        if index < self.lights.len() {
            let mut lights = self.lights.clone();
            lights.set(index, color);
            self.lights = lights;
            Ok(())
        } else {
            Err(OutOfBounds { index })
        }
    }

    /// Turns every light off.
    pub fn off(&mut self)
        ensures
            final(self)@ == uniform(black()),
    {
        self.lights = Self::uniform_lights(Color::black());
    }

    /// Sets every light to `color`.
    pub fn fill(&mut self, color: Color)
        ensures
            final(self)@ == uniform(color),
    {
        self.lights = Self::uniform_lights(color);
    }

    /// The colours of all the lights, in index order.
    pub fn read_all(&self) -> (r: Vec<Color>)
        ensures
            r@ == self@,
    {
        self.lights.clone()
    }

    /// What the strip is sent to show the buffer: one frame per light, in
    /// index order.
    pub fn frames(&self) -> (r: Vec<[u8; 3]>)
        ensures
            r@.len() == self@.len(),
            forall|i: int| 0 <= i < r@.len() ==> (#[trigger] r@[i])@ == frame_of(self@[i]),
    {
        let mut frames: Vec<[u8; 3]> = Vec::new();
        let mut i: usize = 0;
        while i < self.lights.len()
            invariant
                i <= self.lights@.len(),
                frames@.len() == i,
                forall|j: int| 0 <= j < i ==> (#[trigger] frames@[j])@ == frame_of(self.lights@[j]),
            decreases self.lights@.len() - i,
        {
            frames.push(self.lights[i].frame());
            i = i + 1;
        }
        frames
    }
}

/// Filling the bars with a colour and reading them back gives `LED_COUNT`
/// lights, each of that colour.
pub proof fn lemma_fill_then_read_all(color: Color)
    ensures
        uniform(color).len() == LED_COUNT,
        forall|i: int| 0 <= i < LED_COUNT ==> #[trigger] uniform(color)[i] == color,
{
}

/// Setting one light changes that light and no other.
pub proof fn lemma_set_changes_only_index(lights: Seq<Color>, index: int, color: Color)
    requires
        lights.len() == LED_COUNT,
        0 <= index < LED_COUNT,
    ensures
        lights.update(index, color).len() == LED_COUNT,
        lights.update(index, color)[index] == color,
        forall|j: int|
            0 <= j < LED_COUNT && j != index ==> #[trigger] lights.update(index, color)[j]
                == lights[j],
{
}

} // verus!
