//! The texts that the overlay shows.

use vstd::prelude::*;

verus! {

/// Shown in the CPU line before the first measurement.
pub const CPU_PLACEHOLDER: &'static str = "CPU   -.-% ";

/// Shown in the RAM line before the first measurement.
pub const RAM_PLACEHOLDER: &'static str = "RAM  -.--G";

/// Shown in the settings box.
pub const SETTINGS_TEXT: &'static str =
    "Edit config.json to change defaults.\nHotkeys: F8 background, F9 topmost, F10 click-through.";

/// The caption of the settings box.
pub const SETTINGS_CAPTION: &'static str = "Overlay Stats - Settings";

/// `text` with spaces in front up to `width` characters.
pub open spec fn right_aligned(text: Seq<char>, width: nat) -> Seq<char> {
    Seq::new((if text.len() < width {
        width - text.len()
    } else {
        0
    }) as nat, |i: int| ' ') + text
}

/// The CPU line for a usage that reads `percent`.
pub open spec fn cpu_line(percent: Seq<char>) -> Seq<char> {
    "CPU "@ + right_aligned(percent, 5) + "%"@
}

/// The RAM line for a usage that reads `gigabytes`.
pub open spec fn ram_line(gigabytes: Seq<char>) -> Seq<char> {
    "RAM "@ + right_aligned(gigabytes, 4) + "G"@
}

/// Appends `text`, aligned to the right in a column of `width` characters.
fn append_right_aligned(line: &mut String, text: &str, width: usize)
    ensures
        final(line)@ == old(line)@ + right_aligned(text@, width as nat),
{
    let len: usize = text.unicode_len();
    let mut column: usize = len;
    proof {
        reveal_strlit(" ");
    }
    while column < width
        invariant
            len == text@.len(),
            len <= column,
            column <= width || column == len,
            line@ == old(line)@ + Seq::new((column - len) as nat, |i: int| ' '),
            " "@ == seq![' '],
        decreases width - column,
    {
        line.append(" ");
        column = column + 1;
    }
    line.append(text);
}

/// The CPU line, for a percentage written with one decimal.
pub fn cpu_label(percent: &str) -> (line: String)
    ensures
        line@ == cpu_line(percent@),
{
    let mut line: String = "CPU ".to_owned();
    append_right_aligned(&mut line, percent, 5);
    line.append("%");
    line
}

/// The RAM line, for gigabytes written with two decimals.
pub fn ram_label(gigabytes: &str) -> (line: String)
    ensures
        line@ == ram_line(gigabytes@),
{
    let mut line: String = "RAM ".to_owned();
    append_right_aligned(&mut line, gigabytes, 4);
    line.append("G");
    line
}

/// A CPU line is ten characters wide as long as the number has at most five,
/// so the RAM line beside it does not move from one measurement to the next.
pub proof fn law_cpu_line_keeps_its_width(percent: Seq<char>)
    requires
        percent.len() <= 5,
    ensures
        cpu_line(percent).len() == 10,
{
    reveal_strlit("CPU ");
    reveal_strlit("%");
}

/// Whether a line reads as a number: `name`, then the whole number with nothing
/// but spaces in front of it, in a column at least `width` characters wide and no
/// wider than it must be, and the unit at the end.
pub open spec fn reads(
    line: Seq<char>,
    name: Seq<char>,
    number: Seq<char>,
    width: int,
    unit: char,
) -> bool {
    let end = line.len() - 1;
    &&& line.len() == name.len() + (if number.len() < width {
        width
    } else {
        number.len() as int
    }) + 1
    &&& forall|i: int| 0 <= i < name.len() ==> #[trigger] line[i] == name[i]
    &&& forall|i: int| name.len() <= i < end - number.len() ==> #[trigger] line[i] == ' '
    &&& line.subrange(end - number.len(), end) == number
    &&& line[end] == unit
}

/// The CPU line shows the whole percentage, whatever it is.
pub proof fn law_cpu_line_shows_the_number(percent: Seq<char>)
    ensures
        reads(cpu_line(percent), seq!['C', 'P', 'U', ' '], percent, 5, '%'),
{
    reveal_strlit("CPU ");
    reveal_strlit("%");
    let line = cpu_line(percent);
    assert(line.subrange(line.len() - 1 - percent.len(), line.len() - 1) =~= percent);
}

/// The RAM line shows the whole number of gigabytes, whatever it is.
pub proof fn law_ram_line_shows_the_number(gigabytes: Seq<char>)
    ensures
        reads(ram_line(gigabytes), seq!['R', 'A', 'M', ' '], gigabytes, 4, 'G'),
{
    reveal_strlit("RAM ");
    reveal_strlit("G");
    let line = ram_line(gigabytes);
    assert(line.subrange(line.len() - 1 - gigabytes.len(), line.len() - 1) =~= gigabytes);
}

} // verus!
