use efiboot::efi::format_efi_status;
use efiboot::log::EfiLogger;
use efiboot::log::FrameBuffer;
use efiboot::log::FrameBufferInfo;
use efiboot::log::Logger;

fn small_surface() -> FrameBuffer {
    FrameBuffer::new(FrameBufferInfo {
        address: 0,
        len: 64 * 32,
        screen_width: 64,
        screen_height: 32,
        pixels_per_scan_line: 64,
    })
}

/// A font whose glyphs alternate set and clear pixels in every row.
fn striped_font() -> Vec<u8> {
    let mut font = vec![0u8; 4 + 16 * 128];
    for glyph in 0..128 {
        for row in 0..16 {
            font[4 + 16 * glyph + row] = 0xAA;
        }
    }
    font
}

#[test]
fn draw_pixel_hits_one_cell() {
    let mut fb = small_surface();
    fb.draw_pixel(1, 1, 0xFF0000);
    assert_eq!(fb.pixels[65], 0xFF0000);
    assert_eq!(fb.pixels[64], 0);
    assert_eq!(fb.pixels[66], 0);
}

#[test]
fn draw_offset_fills_range() {
    let mut fb = small_surface();
    fb.draw_offset(10, 14, 0x00FF00);
    assert_eq!(fb.pixels[9], 0);
    for i in 10..14 {
        assert_eq!(fb.pixels[i], 0x00FF00);
    }
    assert_eq!(fb.pixels[14], 0);
}

#[test]
fn glyph_renders_font_bits() {
    let mut logger = EfiLogger::with_font(small_surface(), striped_font());
    logger.put_char(65);
    // Row bytes of 0xAA set every even pixel of the 8-wide cell.
    for y in 0..16usize {
        for x in 0..8usize {
            let expected = if x % 2 == 0 { 0xFFFFFF } else { 0 };
            assert_eq!(logger.buffer.pixels[y * 64 + x], expected);
        }
    }
    // Nothing outside the glyph cell is touched.
    assert_eq!(logger.buffer.pixels[8], 0);
    assert_eq!(logger.buffer.pixels[16 * 64], 0);
    assert_eq!(logger.pos_x, 8);
    assert_eq!(logger.pos_y, 0);
}

#[test]
fn newline_and_carriage_return_move_the_cursor() {
    let mut logger = EfiLogger::with_font(small_surface(), striped_font());
    logger.put_char(65);
    logger.put_char(10);
    assert_eq!(logger.pos_y, 16);
    assert_eq!(logger.pos_x, 8);
    logger.put_char(13);
    assert_eq!(logger.pos_x, 0);
    assert_eq!(logger.pos_y, 16);
}

#[test]
fn line_overflow_truncates() {
    let mut logger = EfiLogger::with_font(small_surface(), striped_font());
    // The 64-pixel line holds eight cells; the ninth character is dropped.
    for _ in 0..9 {
        logger.put_char(66);
    }
    assert_eq!(logger.pos_x, 64);
    assert_eq!(logger.pos_y, 0);
}

#[test]
fn log_renders_text_through_the_trait() {
    let mut logger = EfiLogger::with_font(small_surface(), striped_font());
    logger.log("AB\r");
    assert_eq!(logger.pos_x, 0);
    assert_eq!(logger.pos_y, 0);
    // Both glyph cells were painted before the carriage return.
    assert_eq!(logger.buffer.pixels[0], 0xFFFFFF);
    assert_eq!(logger.buffer.pixels[8], 0xFFFFFF);
    assert_eq!(logger.try_log("C\n"), Ok(()));
    assert_eq!(logger.pos_y, 16);
}

#[test]
fn logger_drops_glyphs_past_the_font() {
    let mut logger = EfiLogger::with_font(small_surface(), striped_font());
    // Character 500 has no glyph in a 128-glyph font: it is dropped rather
    // than read out of bounds.
    logger.log_char(500);
    assert_eq!(logger.pos_x, 0);
    assert_eq!(logger.buffer.pixels[0], 0);
}

#[test]
fn status_formatting_strips_error_class_bit() {
    assert_eq!(format_efi_status(0x8000_0000_0000_000E), 14);
    assert_eq!(format_efi_status(14), 14);
    assert_eq!(format_efi_status(0), 0);
}
