use taperipper::display::font::FramebufferFont;
use taperipper::display::formatting::{Color, SetFormatting, Style};
use taperipper::display::fmt::{alt, bin, comma_delimited, hex, opt, ptr, FormatKind, WriteExt};
use taperipper::display::framebuffer::{Framebuffer, Pixel, PixelFormat, Rect};
use taperipper::display::style::SetStyle;
use taperipper::log::gop_cons::GOPConsole;
use taperipper::log::qemu::QEMUDebugcon;
use taperipper::log::txt_cons::TXTConsole;
use taperipper::log::writer::LogOutput;

#[test]
fn ansi_foreground_sequences() {
    assert_eq!(Color::Black.to_ansi_fg(), "\x1b[0;30m");
    assert_eq!(Color::Green.to_ansi_fg(), "\x1b[0;32m");
    assert_eq!(Color::BrightWhite.to_ansi_fg(), "\x1b[0;97m");
    assert_eq!(Color::Default.to_ansi_fg(), "\x1b[0m");
    assert_eq!(Color::Rgb(1, 2, 3).to_ansi_fg(), "\x1b[0m");
}

#[test]
fn ansi_background_sequences() {
    assert_eq!(Color::Black.to_ansi_bg(), "\x1b[0;40m");
    assert_eq!(Color::Cyan.to_ansi_bg(), "\x1b[0;46m");
    assert_eq!(Color::BrightBlack.to_ansi_bg(), "\x1b[0;100m");
    assert_eq!(Color::Default.to_ansi_bg(), "\x1b[0m");
}

#[test]
fn ansi_style_sequences() {
    assert_eq!(Style::Bold.to_ansi(), "\x1b[1m");
    assert_eq!(Style::Bold.ansi_rest(), "\x1b[22m");
    assert_eq!(Style::Underline.to_ansi(), "\x1b[4m");
    assert_eq!(Style::Unstyled.to_ansi(), "\x1b[0m");
}

#[test]
fn the_theme_maps_colors_to_rgb() {
    assert_eq!(Color::Black.theme_rgb(), (35, 33, 54));
    assert_eq!(Color::Red.theme_rgb(), (235, 111, 146));
    assert_eq!(Color::Rgb(9, 8, 7).theme_rgb(), (9, 8, 7));
}

#[test]
fn format_tags_carry_the_value_and_notation() {
    assert_eq!(hex(0xABu32).kind, FormatKind::LowerHex);
    assert_eq!(hex(0xABu32).value, 0xAB);
    assert_eq!(bin(5u8).kind, FormatKind::Binary);
    assert_eq!(ptr(1usize).kind, FormatKind::Pointer);
    assert_eq!(alt("x").kind, FormatKind::DebugAlt);
}

#[test]
fn fmt_option_falls_back() {
    let missing: Option<u32> = None;
    let present: Option<u32> = Some(3);
    let _ = opt(&present);
    let f = opt(&missing).or_else("<none>");
    let _ = f;
}

#[test]
fn comma_delimited_joins_values() {
    let out = comma_delimited(QEMUDebugcon::new(), &vec![
        String::from("a"),
        String::from("bc"),
        String::from("d"),
    ]);
    assert_eq!(out.output(), "a, bc, d");
    let empty = comma_delimited(QEMUDebugcon::new(), &Vec::new());
    assert_eq!(empty.output(), "");
}

#[test]
fn with_indent_indents_every_new_line() {
    let mut w = QEMUDebugcon::new().with_indent(2);
    w.write_str("ab\ncd\n");
    let inner = w.finish();
    assert_eq!(inner.output(), "ab\n  cd\n  ");
}

#[test]
fn qemu_console_tracks_colors_and_emits_escapes() {
    let mut con = QEMUDebugcon::new();
    con.set_fg_color(Color::Red);
    assert_eq!(con.get_fg_color(), Color::Red);
    con.set_bg_color(Color::Blue);
    assert_eq!(con.get_bg_color(), Color::Blue);
    SetFormatting::set_style(&mut con, Style::Bold);
    assert_eq!(SetFormatting::get_style(&con), Style::Bold);
    assert!(con.enabled());
    assert_eq!(con.line_len(), 130);
}

#[test]
fn txt_console_renders_colors_but_no_styles() {
    let mut con = TXTConsole::new();
    con.set_fg_color(Color::Yellow);
    assert_eq!(con.get_fg_color(), Color::Yellow);
    SetStyle::set_style(&mut con, taperipper::display::style::Style::Bold);
    assert!(con.enabled());
    assert_eq!(con.line_len(), 80);
}

#[test]
fn framebuffer_geometry() {
    let font = FramebufferFont::new(8, 16);
    let fb = Framebuffer::from_uefi(640, 480, 640, PixelFormat::Rgb, font);
    assert_eq!(fb.width(), 640);
    assert_eq!(fb.height(), 480);
    assert_eq!(fb.size(), 640 * 480 * 4);
    assert_eq!(fb.width_chars(), 80);
    assert_eq!(fb.height_chars(), 30);
    assert!(fb.is_valid());
    let fb = Framebuffer::default();
    assert!(!fb.is_valid());
}

#[test]
fn draw_iter_writes_channel_bytes_per_format() {
    let font = FramebufferFont::new(1, 1);
    let mut fb = Framebuffer::from_uefi(4, 4, 4, PixelFormat::Rgb, font);
    fb.draw_iter(&vec![Pixel { x: 1, y: 0, color: (10, 20, 30) }]);
    let mem = fb.get_raw().clone();
    assert_eq!(&mem[4..8], &[10, 20, 30, 0]);
    let mut fb = Framebuffer::from_uefi(4, 4, 4, PixelFormat::Bgr, FramebufferFont::new(1, 1));
    fb.draw_iter(&vec![Pixel { x: 0, y: 1, color: (10, 20, 30) }]);
    let mem = fb.get_raw().clone();
    assert_eq!(&mem[16..20], &[30, 20, 10, 0]);
    // off-screen pixels are skipped
    let mut fb = Framebuffer::from_uefi(4, 4, 4, PixelFormat::Rgb, FramebufferFont::new(1, 1));
    fb.draw_iter(&vec![Pixel { x: 9, y: 9, color: (1, 1, 1) }]);
    assert!(fb.get_raw().iter().all(|b| *b == 0));
}

#[test]
fn fill_solid_paints_the_rectangle() {
    let font = FramebufferFont::new(1, 1);
    let mut fb = Framebuffer::from_uefi(4, 2, 4, PixelFormat::Rgb, font);
    fb.fill_solid(&Rect { x: 1, y: 0, width: 2, height: 2 }, (7, 8, 9));
    let mem = fb.get_raw().clone();
    for py in 0..2usize {
        for px in 0..4usize {
            let off = (py * 4 + px) * 4;
            if (1..3).contains(&px) {
                assert_eq!(&mem[off..off + 3], &[7, 8, 9]);
            } else {
                assert_eq!(&mem[off..off + 3], &[0, 0, 0]);
            }
        }
    }
}

#[test]
fn write_str_advances_and_wraps_the_cursor() {
    // a 4x2 character screen with one-pixel cells
    let font = FramebufferFont::new(1, 1);
    let mut fb = Framebuffer::from_uefi(4, 2, 4, PixelFormat::Rgb, font);
    fb.write_str("ab");
    assert_eq!(fb.cursor(), (2, 0));
    fb.write_str("\n");
    assert_eq!(fb.cursor(), (0, 1));
    // wrapping past the last column starts a new line, and past the bottom
    // row the screen scrolls, keeping the cursor on the bottom row
    fb.write_str("wxyz");
    assert_eq!(fb.cursor(), (0, 1));
}

#[test]
fn scroll_moves_rows_up_and_fills_the_bottom() {
    let font = FramebufferFont::new(1, 1);
    let mut fb = Framebuffer::from_uefi(2, 2, 2, PixelFormat::Rgb, font);
    // paint the second row red, then write until the cursor sits there
    fb.fill_solid(&Rect { x: 0, y: 1, width: 2, height: 1 }, (200, 0, 0));
    fb.write_str("\n");
    assert_eq!(fb.cursor(), (0, 1));
    fb.scroll(1);
    assert_eq!(fb.cursor(), (0, 0));
    let mem = fb.get_raw().clone();
    // the red row moved to the top
    assert_eq!(&mem[0..3], &[200, 0, 0]);
    // the vacated bottom row holds the background (black theme)
    let bottom = &mem[8..11];
    assert_eq!(bottom, &[35, 33, 54]);
}

#[test]
fn gop_console_wraps_the_framebuffer() {
    let font = FramebufferFont::new(1, 1);
    let mut con = GOPConsole::from_uefi(4, 4, 4, PixelFormat::Rgb, font);
    assert!(con.enabled());
    assert!(con.line_len() == 4);
    con.set_fg_color(Color::White);
    assert_eq!(con.get_fg_color(), Color::White);
    con.write_str("hi");
    let fb = con.into_framebuffer();
    assert_eq!(fb.cursor(), (2, 0));
    let empty = GOPConsole::new();
    assert!(!empty.enabled());
}

#[test]
fn formatting_guard_restores_the_previous_colors() {
    let con = QEMUDebugcon::new();
    let mut guard = con.with_fg_color(Color::Red);
    guard.write_str("x");
    let con = guard.finish();
    assert_eq!(con.get_fg_color(), Color::Default);
    let con = con.with_colors(Color::Cyan, Color::White).finish();
    assert_eq!(con.get_fg_color(), Color::Default);
    assert_eq!(con.get_bg_color(), Color::Default);
    // the guard put the style back to what it was before the scope
    let con = con.with_bold().finish();
    assert_eq!(SetFormatting::get_style(&con), Style::Unstyled);
}
