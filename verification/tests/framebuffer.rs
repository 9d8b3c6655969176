use ksupport::interrupts::CoreInterrupts;
use ksupport::kframebuffer::add;
use ksupport::kframebuffer::dynamic_bitmask_for_n_bits;
use ksupport::kframebuffer::framebuffer;
use ksupport::kframebuffer::framebuffer_init;
use ksupport::kframebuffer::Color;
use ksupport::kframebuffer::ColorFormat;
use ksupport::kframebuffer::LinearFramebuffer;
use ksupport::konce::KSpinOnceCell;

#[test]
fn it_works() {
    assert_eq!(add(1, 1), 2);
}

#[test]
fn color_rgb_sets_full_alpha() {
    let c = Color::rgb(10, 20, 30);
    assert_eq!(c.r, 10);
    assert_eq!(c.g, 20);
    assert_eq!(c.b, 30);
    assert_eq!(c.a, 255);
}

#[test]
fn color_rgba_packs_little_endian() {
    let c = Color::rgb(1, 2, 3);
    assert_eq!(c.rgba(), 0xFF03_0201);
    let d = Color { r: 0x11, g: 0x22, b: 0x33, a: 0x44 };
    assert_eq!(d.rgba(), 0x4433_2211);
}

#[test]
fn color_grayscale_weights() {
    assert_eq!(Color::rgb(255, 255, 255).grayscale(), 76 + 150 + 28);
    assert_eq!(Color::rgb(0, 0, 0).grayscale(), 0);
    assert_eq!(Color::rgb(100, 100, 100).grayscale(), 30 + 59 + 11);
}

#[test]
fn format_rgb_into_rgb_is_identity() {
    let f = ColorFormat::new((0, 8), (8, 8), (16, 8));
    let c = Color::rgb(1, 2, 3);
    assert_eq!(f.rearrange(c), c.rgba());
}

#[test]
fn format_rgb_into_brg_swaps_bytes() {
    let f = ColorFormat::new((8, 8), (16, 8), (0, 8));
    let c = Color::rgb(1, 2, 3);
    // blue lands in the low byte, red and green move up one byte each
    assert_eq!(f.rearrange(c), 0x0002_0103);
}

#[test]
fn format_general_path_masks_and_shifts() {
    let f = ColorFormat::new((0, 0xFF), (8, 0xFF), (16, 0xFF));
    let c = Color::rgb(0x0A, 0x0B, 0x0C);
    // each channel is masked with 0xFF and shifted into place; alpha is
    // dropped
    assert_eq!(f.rearrange(c), 0x000C_0B0A);
    let masked = ColorFormat::new((0, 0x0F), (8, 0x0F), (16, 0x0F));
    assert_eq!(masked.rearrange(Color::rgb(0xFF, 0xFF, 0xFF)), 0x000F_0F0F);
}

#[test]
fn format_getters_report_the_configuration() {
    let f = ColorFormat::new((1, 2), (3, 4), (5, 6));
    assert_eq!(f.red_shift(), 1);
    assert_eq!(f.red_mask(), 2);
    assert_eq!(f.green_shift(), 3);
    assert_eq!(f.green_mask(), 4);
    assert_eq!(f.blue_shift(), 5);
    assert_eq!(f.blue_mask(), 6);
}

#[test]
fn bitmask_for_n_bits() {
    // the hardware-format quirk exactly as the boot code relies on it
    assert_eq!(dynamic_bitmask_for_n_bits(8), 0xFE);
    assert_eq!(dynamic_bitmask_for_n_bits(7), 0x7E);
    assert_eq!(dynamic_bitmask_for_n_bits(1), 0x00);
}

fn tiny_framebuffer() -> LinearFramebuffer {
    let raw = vec![0u8; 16];
    let format = ColorFormat::new((0, 8), (8, 8), (16, 8));
    LinearFramebuffer::new(raw, 2, 2, 8, 4, format)
}

#[test]
fn framebuffer_getters() {
    let mut fb = tiny_framebuffer();
    assert_eq!(fb.width(), 2);
    assert_eq!(fb.height(), 2);
    assert_eq!(fb.pitch(), 8);
    assert_eq!(fb.bytes_per_pixel(), 4);
    assert_eq!(fb.full_raw_buffer().len(), 16);
    assert_eq!(fb.format().red_mask(), 8);
}

#[test]
fn buffered_set_writes_four_bytes_at_the_offset() {
    let mut fb = tiny_framebuffer();
    let mut staging = vec![0u8; 16];
    let c = Color::rgb(1, 2, 3);
    fb.buffered_set(&mut staging, 1, 1, c);
    // offset = x * bytes_per_pixel + y * pitch = 4 + 8 = 12;
    // the pixel 0xFF030201 lands in little-endian order
    assert_eq!(&staging[..12], &[0u8; 12]);
    assert_eq!(&staging[12..], &[0x01, 0x02, 0x03, 0xFF]);
}

#[test]
fn buffered_write_copies_the_staging_buffer() {
    let mut fb = tiny_framebuffer();
    let staging: Vec<u8> = (0u8..16).collect();
    fb.buffered_write(&staging);
    assert_eq!(fb.full_raw_buffer().as_slice(), staging.as_slice());
}

#[test]
fn raw_set_touches_one_byte() {
    let mut fb = tiny_framebuffer();
    fb.raw_set(3, 0xAB);
    let buf = fb.full_raw_buffer();
    assert_eq!(buf[3], 0xAB);
    assert_eq!(buf[2], 0);
    assert_eq!(buf[4], 0);
}

#[test]
fn framebuffer_cell_installs_once() {
    let mut irq = CoreInterrupts::startup(true);
    let mut cell = KSpinOnceCell::uninit();
    framebuffer_init(&mut cell, tiny_framebuffer(), &mut irq);
    assert!(irq.enabled());
    // a second installation changes nothing
    let mut other = tiny_framebuffer();
    other.raw_set(0, 9);
    framebuffer_init(&mut cell, other, &mut irq);
    {
        let lock = framebuffer(&cell, &mut irq);
        let _ = lock;
    }
    assert!(irq.enabled());
    // the cell still guards the first framebuffer, whose byte 0 is 0
    let lock = cell.get_mut(&mut irq);
    let mut guard = lock.lock(&mut irq);
    assert!(!irq.enabled());
    assert_eq!(guard.get_mut().full_raw_buffer()[0], 0);
    lock.unlock(guard, &mut irq);
    assert!(irq.enabled());
}
