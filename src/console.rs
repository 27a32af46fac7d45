use vstd::prelude::*;
use vstd::string::StringSliceAdditionalSpecFns;
use crate::lazy::OnceCell;
use crate::sync::Mutex;
use crate::vga::{put_bytes, Color, ColorCode, Writer};

verus! {

/// The console is set up: its lock is free and it holds a usable writer.
pub open spec fn console_ready(console: &Mutex<OnceCell<Writer>>) -> bool {
    &&& !console.is_locked()
    &&& console.data()@ is Some
    &&& console.data()@.unwrap().wf()
}

/// The writer of a ready console.
pub open spec fn console_writer(console: &Mutex<OnceCell<Writer>>) -> Writer {
    console.data()@.unwrap()
}

/// Writes `s` to the console under its lock, in the current colour.
pub fn _print(console: &mut Mutex<OnceCell<Writer>>, s: &str)
    requires
        console_ready(old(console)),
    ensures
        console_ready(final(console)),
        console_writer(final(console)).columns() == console_writer(old(console)).columns(),
        console_writer(final(console)).spec_color_code() == console_writer(
            old(console),
        ).spec_color_code(),
        (console_writer(final(console)).cells(), console_writer(final(console)).cursor())
            == put_bytes(
            console_writer(old(console)).cells(),
            console_writer(old(console)).cursor(),
            console_writer(old(console)).columns(),
            console_writer(old(console)).spec_color_code(),
            s.spec_bytes(),
        ),
{
    let guard = console.lock();
    let cell = console.get_mut(&guard);
    match cell.get_mut() {
        Some(writer) => writer.write_str(s),
        None => {},
    }
    console.unlock(guard);
}

/// Writes `s` to the console under its lock in red on the current
/// background, then puts the colour back as it was.
pub fn _eprint(console: &mut Mutex<OnceCell<Writer>>, s: &str)
    requires
        console_ready(old(console)),
    ensures
        console_ready(final(console)),
        console_writer(final(console)).columns() == console_writer(old(console)).columns(),
        console_writer(final(console)).spec_color_code() == console_writer(
            old(console),
        ).spec_color_code(),
        (console_writer(final(console)).cells(), console_writer(final(console)).cursor())
            == put_bytes(
            console_writer(old(console)).cells(),
            console_writer(old(console)).cursor(),
            console_writer(old(console)).columns(),
            ColorCode((console_writer(old(console)).spec_color_code().0 & 0xF0)
                | Color::Red.spec_value()),
            s.spec_bytes(),
        ),
{
    let guard = console.lock();
    let cell = console.get_mut(&guard);
    match cell.get_mut() {
        Some(writer) => {
            let current_color = writer.color_code();
            writer.set_fg_color(Color::Red);
            writer.write_str(s);
            writer.set_color_code(current_color);
        },
        None => {},
    }
    console.unlock(guard);
}

} // verus!
