use vstd::prelude::*;
use vstd::string::StringSliceAdditionalSpecFns;
use crate::color::{level_color, DebugLevel};
use crate::writer::Writer;

verus! {

/// Prints already formatted text on the console's writer.
pub fn _print(writer: &mut Writer, s: &str)
    ensures
        final(writer)@.wf(),
        final(writer)@ == old(writer)@.put_str(s.spec_bytes()),
{
    writer.write_string(s);
}

/// Blanks the console and moves its cursor to the top left.
pub fn _clear_screen(writer: &mut Writer)
    ensures
        final(writer)@.wf(),
        final(writer)@ == old(writer)@.clear(),
{
    writer.clear_screen();
}

/// Prints already formatted text in the colors of `level`, leaving the
/// console's active color as it was.
pub fn _debug(writer: &mut Writer, level: DebugLevel, s: &str)
    ensures
        final(writer)@.wf(),
        final(writer)@ == old(writer)@.put_str_in(level_color(level), s.spec_bytes()),
{
    let color = level.color_code();
    writer.with_color(color, s);
}

} // verus!
