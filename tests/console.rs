use bare_kernel::console::{_eprint, _print};
use bare_kernel::lazy::OnceCell;
use bare_kernel::sync::Mutex;
use bare_kernel::vga::{Color, ColorCode, ScreenChar, Writer};

fn blank() -> ScreenChar {
    ScreenChar { ascii_character: b' ', color_code: ColorCode(0x0F) }
}

fn text(w: &Writer) -> String {
    w.cells_vec().iter().map(|c| c.ascii_character as char).collect()
}

#[test]
fn color_code_nibbles() {
    let c = ColorCode::new(Color::Yellow, Color::Blue);
    assert_eq!(c.0, 0x1E);
    let mut d = c;
    d.set_fg_color(Color::Red);
    assert_eq!(d.0, 0x14);
    d.set_bg_color(Color::White);
    assert_eq!(d.0, 0xF4);
    assert_eq!(ColorCode::new(Color::White, Color::Black).0, 0x0F);
}

#[test]
fn writer_fills_rows_and_breaks_lines() {
    let mut w = Writer::new(vec![blank(); 6], 2, 3);
    assert_eq!(w.position(), 0);
    w.write_str("ab\nc");
    assert_eq!(text(&w), "ab c  ");
    assert_eq!(w.position(), 4);
    assert_eq!(w.cells_vec()[0].color_code, ColorCode(0x0F));
}

#[test]
fn writer_scrolls_at_end_of_screen() {
    let mut w = Writer::new(vec![blank(); 6], 2, 3);
    w.write_str("abcdef");
    // the sixth cell filled the screen, which moved up one line
    assert_eq!(text(&w), "def   ");
    assert_eq!(w.position(), 3);
    w.write_str("\n");
    assert_eq!(text(&w), "      ");
    assert_eq!(w.position(), 3);
}

#[test]
fn writer_clear_and_colours() {
    let mut w = Writer::new(vec![blank(); 4], 1, 4);
    w.set_fg_color(Color::Green);
    w.write_byte(b'x');
    assert_eq!(w.cells_vec()[0], ScreenChar { ascii_character: b'x', color_code: ColorCode(0x02) });
    w.set_bg_color(Color::Cyan);
    assert_eq!(w.color_code(), ColorCode(0x32));
    w.set_color_code(ColorCode(0x0F));
    w.clear();
    assert_eq!(text(&w), "    ");
    assert_eq!(w.position(), 0);
}

#[test]
fn print_and_eprint_share_the_console() {
    let mut console: Mutex<OnceCell<Writer>> = Mutex::new(OnceCell::new());
    let guard = console.lock();
    let _ = console.get_mut(&guard).set(Writer::new(vec![blank(); 20], 2, 10));
    console.unlock(guard);

    _print(&mut console, "ok\n");
    _eprint(&mut console, "err");
    let guard = console.lock();
    let w = console.get(&guard).get().unwrap();
    assert_eq!(text(w), "ok        err       ");
    assert_eq!(w.cells_vec()[0].color_code, ColorCode(0x0F));
    assert_eq!(w.cells_vec()[10].color_code, ColorCode(0x04));
    assert_eq!(w.color_code(), ColorCode(0x0F));
    console.unlock(guard);
}
