//! Kernel-level framebuffer driver.
//!
//! This driver is purely for debug purposes: it gives the CPU direct,
//! lock-guarded access to the linear framebuffer that the bootloader hands
//! over.  The framebuffer memory itself is modelled as an owned byte
//! buffer; architecture-specific boot code maps the hardware buffer and
//! converts the bootloader's description into a [`LinearFramebuffer`]
//! through [`LinearFramebuffer::new`].

use vstd::prelude::*;
use vstd::pervasive::VecAdditionalExecFns;

use crate::interrupts::CoreInterrupts;
use crate::kmutex::KSpinFairMutex;
use crate::konce::KSpinOnceCell;

verus! {

/// Adds two integers; the smallest placeholder the driver exports for
/// its arithmetic helpers.
pub fn add(x: i32, y: i32) -> (r: i32)
    requires
        i32::MIN <= x + y <= i32::MAX,
    ensures
        r == x + y,
{
    x + y
}

/// Models a 4-byte color with red, green, blue, and an optional alpha
/// channel.
#[derive(Copy, Clone, PartialEq, Eq, Structural, Hash, Debug)]
pub struct Color {
    /// Red channel
    pub r: u8,
    /// Green channel
    pub g: u8,
    /// Blue channel
    pub b: u8,
    /// (unused for now) alpha channel
    pub a: u8,
}

impl Color {
    /// The 32-bit RGBA packing of the color, least-significant byte red.
    pub open spec fn spec_rgba(self) -> u32 {
        (self.r as u32) | ((self.g as u32) << 8) | ((self.b as u32) << 16) | ((self.a as u32)
            << 24)
    }

    /// Creates an RGB color (with alpha = 255).
    pub fn rgb(r: u8, g: u8, b: u8) -> (c: Self)
        ensures
            c == (Color { r, g, b, a: 255u8 }),
    {
        Color { r, g, b, a: 255 }
    }

    /// Approximates grayscale based on the (r, g, b) triple represented
    /// by the color.
    ///
    /// Only uses integer math — the classic 0.30/0.59/0.11 weights — so
    /// it is only an approximation.
    pub fn grayscale(self) -> (v: u8)
        ensures
            v == (self.r * 30) / 100 + (self.g * 59) / 100 + (self.b * 11) / 100,
    {
        let red = ((self.r as u16 * 30) / 100) as u8;
        let green = ((self.g as u16 * 59) / 100) as u8;
        let blue = ((self.b as u16 * 11) / 100) as u8;
        red + green + blue
    }

    /// Returns a `u32` in RGBA format: the four channels packed in
    /// little-endian byte order.
    pub fn rgba(self) -> (v: u32)
        ensures
            v == self.spec_rgba(),
    {
        (self.r as u32) | ((self.g as u32) << 8) | ((self.b as u32) << 16) | ((self.a as u32)
            << 24)
    }
}

/// The rearrangement routine a [`ColorFormat`] dispatches to.
///
/// The two common layouts get specialized routines whose behavior on
/// their formats is fixed; everything else goes through the general
/// mask-and-shift path.
#[derive(Copy, Clone, PartialEq, Eq, Structural, Hash, Debug)]
pub enum Rearranger {
    /// RGB into RGB: the identity.
    RgbIntoRgb,
    /// RGB into BRG byte order.
    RgbIntoBrg,
    /// The general path: mask and shift each channel as configured.
    AlwaysCorrect,
}

/// Represents possible framebuffer color formats.
///
/// It compactly stores a set of shifts and masks, and provides a trivial
/// way to rearrange RGB color `u32`s into valid pixels.
#[derive(Copy, Clone, PartialEq, Eq, Structural, Hash, Debug)]
pub struct ColorFormat {
    rearranger: Rearranger,
    shifts: u32,
    masks: u32,
}

/// The routine [`ColorFormat::new`] selects for a given set of
/// `(shift, mask)` channel descriptions.
pub open spec fn spec_rearranger_for(red: (u8, u8), green: (u8, u8), blue: (u8, u8)) -> Rearranger {
    if red == (0u8, 8u8) && green == (8u8, 8u8) && blue == (16u8, 8u8) {
        Rearranger::RgbIntoRgb
    } else if red == (8u8, 8u8) && green == (16u8, 8u8) && blue == (0u8, 8u8) {
        Rearranger::RgbIntoBrg
    } else {
        Rearranger::AlwaysCorrect
    }
}

impl ColorFormat {
    /// The selected rearrangement routine.
    pub closed spec fn spec_rearranger(self) -> Rearranger {
        self.rearranger
    }

    /// The bitmask applied to the red channel on the general path.
    pub closed spec fn spec_red_mask(self) -> u32 {
        self.masks & 0xFF
    }

    /// The bitmask applied to the green channel on the general path.
    pub closed spec fn spec_green_mask(self) -> u32 {
        (self.masks >> 8) & 0xFF
    }

    /// The bitmask applied to the blue channel on the general path.
    pub closed spec fn spec_blue_mask(self) -> u32 {
        (self.masks >> 16) & 0xFF
    }

    /// The shift applied to the red channel on the general path.
    pub closed spec fn spec_red_shift(self) -> u32 {
        self.shifts & 0xFF
    }

    /// The shift applied to the green channel on the general path.
    pub closed spec fn spec_green_shift(self) -> u32 {
        (self.shifts >> 8) & 0xFF
    }

    /// The shift applied to the blue channel on the general path.
    pub closed spec fn spec_blue_shift(self) -> u32 {
        (self.shifts >> 16) & 0xFF
    }

    /// Whether the stored shifts are small enough to shift a 32-bit
    /// pixel; formats with larger shifts cannot be rearranged on the
    /// general path.
    pub open spec fn shifts_in_range(self) -> bool {
        self.spec_red_shift() < 32 && self.spec_green_shift() < 32 && self.spec_blue_shift() < 32
    }

    /// Creates a new [`ColorFormat`].
    ///
    /// The `red`/`green`/`blue` arguments are pairs of the form
    /// `(shift, mask)`: the amount to shift the channel by, and the
    /// bitmask to mask the channel with before shifting it into the
    /// final value.
    pub fn new(red: (u8, u8), green: (u8, u8), blue: (u8, u8)) -> (r: Self)
        ensures
            r.spec_rearranger() == spec_rearranger_for(red, green, blue),
            r.spec_red_shift() == red.0 as u32,
            r.spec_green_shift() == green.0 as u32,
            r.spec_blue_shift() == blue.0 as u32,
            r.spec_red_mask() == red.1 as u32,
            r.spec_green_mask() == green.1 as u32,
            r.spec_blue_mask() == blue.1 as u32,
    {
        let (red_shift, red_mask) = red;
        let (green_shift, green_mask) = green;
        let (blue_shift, blue_mask) = blue;
        let rearranger = if red_shift == 0 && red_mask == 8 && green_shift == 8 && green_mask == 8
            && blue_shift == 16 && blue_mask == 8 {
            Rearranger::RgbIntoRgb
        } else if red_shift == 8 && red_mask == 8 && green_shift == 16 && green_mask == 8
            && blue_shift == 0 && blue_mask == 8 {
            Rearranger::RgbIntoBrg
        } else {
            Rearranger::AlwaysCorrect
        };
        let shifts: u32 = (red_shift as u32) | ((green_shift as u32) << 8) | ((blue_shift as u32)
            << 16);
        let masks: u32 = (red_mask as u32) | ((green_mask as u32) << 8) | ((blue_mask as u32)
            << 16);
        proof {
            let a = red_shift as u32;
            let b = green_shift as u32;
            let c = blue_shift as u32;
            assert((a | (b << 8) | (c << 16)) & 0xFF == a) by (bit_vector)
                requires
                    a < 256 && b < 256 && c < 256,
            ;
            assert(((a | (b << 8) | (c << 16)) >> 8) & 0xFF == b) by (bit_vector)
                requires
                    a < 256 && b < 256 && c < 256,
            ;
            assert(((a | (b << 8) | (c << 16)) >> 16) & 0xFF == c) by (bit_vector)
                requires
                    a < 256 && b < 256 && c < 256,
            ;
            let d = red_mask as u32;
            let e = green_mask as u32;
            let f = blue_mask as u32;
            assert((d | (e << 8) | (f << 16)) & 0xFF == d) by (bit_vector)
                requires
                    d < 256 && e < 256 && f < 256,
            ;
            assert(((d | (e << 8) | (f << 16)) >> 8) & 0xFF == e) by (bit_vector)
                requires
                    d < 256 && e < 256 && f < 256,
            ;
            assert(((d | (e << 8) | (f << 16)) >> 16) & 0xFF == f) by (bit_vector)
                requires
                    d < 256 && e < 256 && f < 256,
            ;
        }
        ColorFormat { rearranger, shifts, masks }
    }

    /// What the RGB-into-RGB routine computes: the identity.
    pub open spec fn spec_rearrange_rgb_into_rgb(self, rgb: u32) -> u32 {
        rgb
    }

    /// What the RGB-into-BRG routine computes: the blue byte lands in
    /// the low byte, red and green move up one byte each.
    pub open spec fn spec_rearrange_rgb_into_brg(self, rgb: u32) -> u32 {
        ((rgb >> 16) & 0xFF) | ((rgb & 0xFF) << 8) | (((rgb >> 8) & 0xFF) << 16)
    }

    /// What the general routine computes: each channel byte is masked
    /// and shifted as the format describes.
    pub open spec fn spec_rearrange_always_correct(self, rgb: u32) -> u32 {
        (((rgb & 0xFF) & self.spec_red_mask()) << self.spec_red_shift()) | ((((rgb >> 8) & 0xFF)
            & self.spec_green_mask()) << self.spec_green_shift()) | ((((rgb >> 16) & 0xFF)
            & self.spec_blue_mask()) << self.spec_blue_shift())
    }

    /// What [`ColorFormat::rearrange`] computes for a packed RGBA value.
    pub open spec fn spec_rearrange(self, rgb: u32) -> u32 {
        match self.spec_rearranger() {
            Rearranger::RgbIntoRgb => self.spec_rearrange_rgb_into_rgb(rgb),
            Rearranger::RgbIntoBrg => self.spec_rearrange_rgb_into_brg(rgb),
            Rearranger::AlwaysCorrect => self.spec_rearrange_always_correct(rgb),
        }
    }

    /// Re-arranges the color `rgb` into a `u32` pixel of this format.
    pub fn rearrange(self, rgb: Color) -> (r: u32)
        requires
            self.spec_rearranger() is AlwaysCorrect ==> self.shifts_in_range(),
        ensures
            r == self.spec_rearrange(rgb.spec_rgba()),
    {
        let raw = rgb.rgba();
        match self.rearranger {
            Rearranger::RgbIntoRgb => self.rearrange_rgb_into_rgb(raw),
            Rearranger::RgbIntoBrg => self.rearrange_rgb_into_brg(raw),
            Rearranger::AlwaysCorrect => self.rearrange_always_correct(raw),
        }
    }

    /// The specialized routine for RGB to RGB, which is very common: the
    /// pixel passes through unchanged.
    pub fn rearrange_rgb_into_rgb(self, rgb: u32) -> (r: u32)
        ensures
            r == self.spec_rearrange_rgb_into_rgb(rgb),
    {
        rgb
    }

    /// The specialized routine for RGB to BRG byte order, which is also
    /// very common.
    pub fn rearrange_rgb_into_brg(self, rgb: u32) -> (r: u32)
        ensures
            r == self.spec_rearrange_rgb_into_brg(rgb),
    {
        let red = rgb & 0xFF;
        let green = (rgb >> 8) & 0xFF;
        let blue = (rgb >> 16) & 0xFF;
        blue | (red << 8) | (green << 16)
    }

    /// The fallback routine that works with all formats whose shifts fit
    /// a 32-bit pixel, not specialized.
    pub fn rearrange_always_correct(self, rgb: u32) -> (r: u32)
        requires
            self.shifts_in_range(),
        ensures
            r == self.spec_rearrange_always_correct(rgb),
    {
        let red = ((rgb & 0xFF) & self.red_mask()) << self.red_shift();
        let green = (((rgb >> 8) & 0xFF) & self.green_mask()) << self.green_shift();
        let blue = (((rgb >> 16) & 0xFF) & self.blue_mask()) << self.blue_shift();
        red | green | blue
    }

    /// The bitmask for the red channel.
    pub fn red_mask(&self) -> (r: u32)
        ensures
            r == self.spec_red_mask(),
    {
        self.masks & 0xFF
    }

    /// The bitmask for the green channel.
    pub fn green_mask(&self) -> (r: u32)
        ensures
            r == self.spec_green_mask(),
    {
        (self.masks >> 8) & 0xFF
    }

    /// The bitmask for the blue channel.
    pub fn blue_mask(&self) -> (r: u32)
        ensures
            r == self.spec_blue_mask(),
    {
        (self.masks >> 16) & 0xFF
    }

    /// The shift for the red channel.
    pub fn red_shift(&self) -> (r: u32)
        ensures
            r == self.spec_red_shift(),
    {
        self.shifts & 0xFF
    }

    /// The shift for the green channel.
    pub fn green_shift(&self) -> (r: u32)
        ensures
            r == self.spec_green_shift(),
    {
        (self.shifts >> 8) & 0xFF
    }

    /// The shift for the blue channel.
    pub fn blue_shift(&self) -> (r: u32)
        ensures
            r == self.spec_blue_shift(),
    {
        (self.shifts >> 16) & 0xFF
    }
}

/// The bitmask that the bootloader-format conversion derives for a
/// channel occupying `n` bits.
pub open spec fn spec_dynamic_bitmask(n: u8) -> u8 {
    !1u8 & (!1u8 >> ((8 - n) as u8))
}

/// Computes the channel bitmask for a channel of `n` bits, as handed
/// over in the bootloader's framebuffer description.
pub fn dynamic_bitmask_for_n_bits(n: u8) -> (r: u8)
    requires
        1 <= n <= 8,
    ensures
        r == spec_dynamic_bitmask(n),
{
    !((n != 0) as u8) & (!1u8 >> (8 - n))
}

/// The four bytes a pixel of the given color occupies in a buffer of
/// the given format, in little-endian order.
pub open spec fn spec_encoded_pixel(format: ColorFormat, color: Color) -> Seq<u8> {
    let raw = format.spec_rearrange(color.spec_rgba());
    seq![
        (raw & 0xFF) as u8,
        ((raw >> 8) & 0xFF) as u8,
        ((raw >> 16) & 0xFF) as u8,
        ((raw >> 24) & 0xFF) as u8,
    ]
}

/// Represents a hardware framebuffer provided by the bootloader.
///
/// These are in true-color mode, not VGA mode.  The pixel storage is an
/// owned byte buffer.
pub struct LinearFramebuffer {
    raw: Vec<u8>,
    width: usize,
    height: usize,
    pitch: usize,
    bytes_per_pixel: usize,
    format: ColorFormat,
}

impl LinearFramebuffer {
    /// The bytes of the pixel buffer.
    pub closed spec fn spec_raw(self) -> Seq<u8> {
        self.raw@
    }

    /// The number of horizontal pixels in a row.
    pub closed spec fn spec_width(self) -> usize {
        self.width
    }

    /// The number of vertical pixels in a column.
    pub closed spec fn spec_height(self) -> usize {
        self.height
    }

    /// The number of bytes from the start of one row to the start of the
    /// next.
    pub closed spec fn spec_pitch(self) -> usize {
        self.pitch
    }

    /// The number of bytes between the start of two pixels.
    pub closed spec fn spec_bytes_per_pixel(self) -> usize {
        self.bytes_per_pixel
    }

    /// The color format of the framebuffer.
    pub closed spec fn spec_format(self) -> ColorFormat {
        self.format
    }

    /// The byte offset of the pixel at (`x`, `y`).
    pub open spec fn spec_offset(self, x: usize, y: usize) -> int {
        x * self.spec_bytes_per_pixel() + y * self.spec_pitch()
    }

    /// Assembles a framebuffer from the geometry the bootloader
    /// describes and the mapped pixel storage.
    pub fn new(
        raw: Vec<u8>,
        width: usize,
        height: usize,
        pitch: usize,
        bytes_per_pixel: usize,
        format: ColorFormat,
    ) -> (r: Self)
        ensures
            r.spec_raw() == raw@,
            r.spec_width() == width,
            r.spec_height() == height,
            r.spec_pitch() == pitch,
            r.spec_bytes_per_pixel() == bytes_per_pixel,
            r.spec_format() == format,
    {
        LinearFramebuffer { raw, width, height, pitch, bytes_per_pixel, format }
    }

    /// Writes the pixel at (`x`, `y`) as `color` into a staging buffer
    /// laid out like the framebuffer.
    ///
    /// Exactly how the color is encoded depends on the format being used
    /// by the framebuffer; the four bytes of the encoded pixel land at
    /// the pixel's offset in little-endian order, and no other byte of
    /// the buffer moves.
    pub fn buffered_set(&mut self, buf: &mut Vec<u8>, x: usize, y: usize, color: Color)
        requires
            old(self).spec_offset(x, y) + 4 <= old(buf).len(),
            old(self).spec_format().spec_rearranger() is AlwaysCorrect ==> old(
                self,
            ).spec_format().shifts_in_range(),
        ensures
            *final(self) == *old(self),
            final(buf)@.len() == old(buf)@.len(),
            forall|k: int|
                0 <= k < 4 ==> final(buf)@[old(self).spec_offset(x, y) + k]
                    == spec_encoded_pixel(old(self).spec_format(), color)[k],
            forall|k: int|
                0 <= k < old(buf)@.len() && !(old(self).spec_offset(x, y) <= k < old(
                    self,
                ).spec_offset(x, y) + 4) ==> final(buf)@[k] == old(buf)@[k],
    {
        let at = x * self.bytes_per_pixel + y * self.pitch;
        let raw = self.format.rearrange(color);
        buf.set(at, (raw & 0xFF) as u8);
        buf.set(at + 1, ((raw >> 8) & 0xFF) as u8);
        buf.set(at + 2, ((raw >> 16) & 0xFF) as u8);
        buf.set(at + 3, ((raw >> 24) & 0xFF) as u8);
    }

    /// Copies the given staging buffer into the framebuffer, effectively
    /// writing to the screen.
    pub fn buffered_write(&mut self, buf: &Vec<u8>)
        requires
            buf.len() == old(self).spec_raw().len(),
        ensures
            final(self).spec_raw() == buf@,
            final(self).spec_width() == old(self).spec_width(),
            final(self).spec_height() == old(self).spec_height(),
            final(self).spec_pitch() == old(self).spec_pitch(),
            final(self).spec_bytes_per_pixel() == old(self).spec_bytes_per_pixel(),
            final(self).spec_format() == old(self).spec_format(),
    {
        let ghost orig = *self;
        let n = buf.len();
        let mut i: usize = 0;
        while i < n
            invariant
                i <= n,
                n == buf.len(),
                self.raw.len() == n,
                self.width == orig.width,
                self.height == orig.height,
                self.pitch == orig.pitch,
                self.bytes_per_pixel == orig.bytes_per_pixel,
                self.format == orig.format,
                forall|k: int| 0 <= k < i ==> self.raw@[k] == buf@[k],
            decreases n - i,
        {
            let v = buf[i];
            self.raw.set(i, v);
            i = i + 1;
        }
        proof {
            assert(self.raw@ =~= buf@);
        }
    }

    /// Sets the framebuffer byte at exactly `at` to `value`.
    ///
    /// This directly accesses the underlying buffer, with no adjustments
    /// of any kind.
    pub fn raw_set(&mut self, at: usize, value: u8)
        requires
            at < old(self).spec_raw().len(),
        ensures
            final(self).spec_raw() == old(self).spec_raw().update(at as int, value),
            final(self).spec_width() == old(self).spec_width(),
            final(self).spec_height() == old(self).spec_height(),
            final(self).spec_pitch() == old(self).spec_pitch(),
            final(self).spec_bytes_per_pixel() == old(self).spec_bytes_per_pixel(),
            final(self).spec_format() == old(self).spec_format(),
    {
        self.raw.set(at, value);
    }

    /// The number of horizontal pixels in a row, e.g. the 1920 in
    /// 1920x1080p.
    pub fn width(&self) -> (r: usize)
        ensures
            r == self.spec_width(),
    {
        self.width
    }

    /// The number of vertical pixels in a column, e.g. the 1080 in
    /// 1920x1080p.
    pub fn height(&self) -> (r: usize)
        ensures
            r == self.spec_height(),
    {
        self.height
    }

    /// The number of bytes between the start of one row and the start of
    /// the next.
    pub fn pitch(&self) -> (r: usize)
        ensures
            r == self.spec_pitch(),
    {
        self.pitch
    }

    /// The number of bytes between the start of two pixels.
    pub fn bytes_per_pixel(&self) -> (r: usize)
        ensures
            r == self.spec_bytes_per_pixel(),
    {
        self.bytes_per_pixel
    }

    /// Returns the buffer that contains the entire framebuffer.
    pub fn full_raw_buffer(&mut self) -> (r: &mut Vec<u8>)
        ensures
            r@ == old(self).spec_raw(),
            final(self).spec_raw() == final(r)@,
            final(self).spec_width() == old(self).spec_width(),
            final(self).spec_height() == old(self).spec_height(),
            final(self).spec_pitch() == old(self).spec_pitch(),
            final(self).spec_bytes_per_pixel() == old(self).spec_bytes_per_pixel(),
            final(self).spec_format() == old(self).spec_format(),
    {
        &mut self.raw
    }

    /// Returns the color format of the framebuffer.
    pub fn format(&self) -> (r: ColorFormat)
        ensures
            r == self.spec_format(),
    {
        self.format
    }
}

/// Installs the framebuffer into the kernel's once-cell, wrapped in a
/// fresh fair lock.
///
/// This is meant to be called from the boot code for a given
/// architecture, after which the framebuffer is ready to use from then
/// on; a second installation attempt is rejected by the cell and changes
/// nothing.
pub fn framebuffer_init(
    cell: &mut KSpinOnceCell<KSpinFairMutex<LinearFramebuffer>>,
    fb: LinearFramebuffer,
    irq: &mut CoreInterrupts,
)
    ensures
        final(cell).is_full(),
        old(cell).is_empty() ==> {
            &&& final(cell).stored().inv()
            &&& !final(cell).stored().is_locked()
            &&& final(cell).stored().value() == fb
        },
        old(cell).is_full() ==> *final(cell) == *old(cell),
        final(irq).is_enabled() == old(irq).is_enabled(),
{
    let _ = cell.set(KSpinFairMutex::new(fb), irq);
}

/// Returns a reference to the lock that guards the framebuffer.
///
/// The cell must have been populated by [`framebuffer_init`] first;
/// reading it earlier would spin forever.
pub fn framebuffer<'a>(
    cell: &'a KSpinOnceCell<KSpinFairMutex<LinearFramebuffer>>,
    irq: &mut CoreInterrupts,
) -> (r: &'a KSpinFairMutex<LinearFramebuffer>)
    requires
        cell.is_full(),
    ensures
        *r == cell.stored(),
        final(irq).is_enabled() == old(irq).is_enabled(),
{
    cell.get(irq)
}

} // verus!
