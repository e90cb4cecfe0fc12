//! UTF-16 text, as the window system takes it.

use vstd::prelude::*;

verus! {

/// The UTF-16 code units of one character: itself below U+10000, otherwise a
/// surrogate pair that splits the 20 bits above U+10000.
pub open spec fn utf16_char(c: char) -> Seq<u16> {
    let n = c as int;
    if n < 0x1_0000 {
        seq![n as u16]
    } else {
        seq![
            (0xD800 + (n - 0x1_0000) / 0x400) as u16,
            (0xDC00 + (n - 0x1_0000) % 0x400) as u16,
        ]
    }
}

/// The UTF-16 code units of a text.
pub open spec fn utf16(text: Seq<char>) -> Seq<u16>
    decreases text.len(),
{
    if text.len() == 0 {
        Seq::empty()
    } else {
        utf16(text.drop_last()) + utf16_char(text.last())
    }
}

/// The number of units of `text` that fit into a buffer of `n` units next to a
/// terminating zero.
pub open spec fn fitting_units(text: Seq<char>, n: nat) -> int {
    if utf16(text).len() < n {
        utf16(text).len() as int
    } else {
        n - 1
    }
}

/// A buffer after `text` was written into it: the units that fit, a zero, and
/// whatever stood behind.
pub open spec fn terminated_copy(buffer: Seq<u16>, text: Seq<char>) -> Seq<u16> {
    let len = fitting_units(text, buffer.len());
    utf16(text).take(len) + seq![0u16] + buffer.skip(len + 1)
}

/// What a reader of a zero-terminated buffer sees: the units before the first
/// zero.
pub open spec fn until_zero(buffer: Seq<u16>) -> Seq<u16>
    decreases buffer.len(),
{
    if buffer.len() == 0 || buffer[0] == 0 {
        Seq::empty()
    } else {
        seq![buffer[0]] + until_zero(buffer.drop_first())
    }
}

/// Appends the code units of one character.
fn push_char(units: &mut Vec<u16>, c: char)
    ensures
        final(units)@ == old(units)@ + utf16_char(c),
{
    let n: u32 = c as u32;
    if n < 0x1_0000 {
        units.push(n as u16);
    } else {
        units.push((0xD800 + (n - 0x1_0000) / 0x400) as u16);
        units.push((0xDC00 + (n - 0x1_0000) % 0x400) as u16);
    }
}

/// Encodes a text as UTF-16.
pub fn encode_wide(text: &str) -> (units: Vec<u16>)
    ensures
        units@ == utf16(text@),
{
    let mut units: Vec<u16> = Vec::new();
    for c in it: text.chars()
        invariant
            it.seq() == text@,
            units@ == utf16(text@.take(it.index() as int)),
    {
        proof {
            let i = it.index() as int;
            assert(text@.take(i + 1).drop_last() =~= text@.take(i));
        }
        push_char(&mut units, c);
    }
    assert(text@.take(text@.len() as int) =~= text@);
    units
}

/// Units with the terminator that the window system expects behind a text.
pub fn with_terminator(units: Vec<u16>) -> (terminated: Vec<u16>)
    ensures
        terminated@ == units@.push(0),
{
    let mut terminated: Vec<u16> = units;
    terminated.push(0);
    terminated
}

/// Writes `text` into `dst` as zero-terminated UTF-16, cut off to what fits.
/// The units after the terminator keep their values.
pub fn copy_wide_into<const N: usize>(dst: &mut [u16; N], text: &str)
    requires
        N > 0,
    ensures
        final(dst)@ == terminated_copy(old(dst)@, text@),
{
    let mut units: Vec<u16> = encode_wide(text);
    if units.len() >= N {
        units.truncate(N - 1);
    }
    let len: usize = units.len();
    let mut i: usize = 0;
    while i < len
        invariant
            i <= len < N,
            len == units@.len(),
            units@ == utf16(text@).take(fitting_units(text@, N as nat)),
            dst@ == units@.take(i as int) + old(dst)@.skip(i as int),
        decreases len - i,
    {
        dst[i] = units[i];
        i = i + 1;
    }
    dst[len] = 0;
}

proof fn lemma_char_units(c: char)
    ensures
        utf16_char(c).len() == 1 ==> {
            &&& utf16_char(c)[0] == c as int
            &&& !(0xD800 <= utf16_char(c)[0] < 0xE000)
        },
        utf16_char(c).len() == 2 ==> {
            &&& 0xD800 <= utf16_char(c)[0] < 0xDC00
            &&& 0xDC00 <= utf16_char(c)[1] < 0xE000
            &&& c as int == 0x1_0000 + (utf16_char(c)[0] - 0xD800) * 0x400 + (utf16_char(c)[1]
                - 0xDC00)
        },
        utf16_char(c).len() == 1 || utf16_char(c).len() == 2,
{
}

proof fn lemma_char_units_without_zero(c: char)
    requires
        c != '\0',
    ensures
        !utf16_char(c).contains(0),
{
    lemma_char_units(c);
}

proof fn lemma_units_without_zero(text: Seq<char>)
    requires
        !text.contains('\0'),
    ensures
        !utf16(text).contains(0),
    decreases text.len(),
{
    if text.len() > 0 {
        assert forall|i: int| 0 <= i < text.drop_last().len() implies text.drop_last()[i]
            != '\0' by {
            assert(text[i] == text.drop_last()[i]);
        }
        lemma_units_without_zero(text.drop_last());
        lemma_char_units_without_zero(text.last());
        let head = utf16(text.drop_last());
        let tail = utf16_char(text.last());
        assert forall|i: int| 0 <= i < (head + tail).len() implies (head + tail)[i] != 0 by {
            if i < head.len() {
                assert(head.contains(head[i]));
            } else {
                assert(tail.contains(tail[i - head.len()]));
            }
        }
    }
}

pub(crate) proof fn lemma_until_zero(units: Seq<u16>, rest: Seq<u16>)
    requires
        !units.contains(0),
    ensures
        until_zero(units + seq![0u16] + rest) == units,
    decreases units.len(),
{
    let buffer = units + seq![0u16] + rest;
    if units.len() == 0 {
        assert(buffer[0] == 0);
    } else {
        assert(units.contains(units[0]));
        assert(buffer[0] == units[0]);
        assert forall|i: int| 0 <= i < units.drop_first().len() implies units.drop_first()[i]
            != 0 by {
            assert(units.contains(units[i + 1]));
        }
        lemma_until_zero(units.drop_first(), rest);
        assert(buffer.drop_first() =~= units.drop_first() + seq![0u16] + rest);
        assert(seq![units[0]] + units.drop_first() =~= units);
    }
}

/// UTF-16 loses nothing: texts with the same code units are the same text.
pub proof fn law_encoding_is_injective(a: Seq<char>, b: Seq<char>)
    requires
        utf16(a) == utf16(b),
    ensures
        a == b,
    decreases a.len(),
{
    if a.len() == 0 {
        if b.len() > 0 {
            lemma_char_units(b.last());
        }
        assert(a =~= b);
    } else {
        lemma_char_units(a.last());
        if b.len() > 0 {
            lemma_char_units(b.last());
            let ua = utf16_char(a.last());
            let ub = utf16_char(b.last());
            let ha = utf16(a.drop_last());
            let hb = utf16(b.drop_last());
            assert(utf16(a).last() == ua.last());
            assert(utf16(b).last() == ub.last());
            assert(ua.len() == ub.len());
            if ua.len() == 2 {
                assert(utf16(a)[utf16(a).len() - 2] == ua[0]);
                assert(utf16(b)[utf16(b).len() - 2] == ub[0]);
            }
            assert(a.last() == b.last());
            assert(ha =~= utf16(a).take(utf16(a).len() - ua.len()));
            assert(hb =~= utf16(b).take(utf16(b).len() - ub.len()));
            law_encoding_is_injective(a.drop_last(), b.drop_last());
            assert(a =~= a.drop_last().push(a.last()));
            assert(b =~= b.drop_last().push(b.last()));
        } else {
            assert(utf16(a).len() > 0);
        }
    }
}

/// A buffer keeps its size when a text is copied into it, and always holds a
/// terminator.
pub proof fn law_copy_is_terminated(buffer: Seq<u16>, text: Seq<char>)
    requires
        buffer.len() > 0,
    ensures
        terminated_copy(buffer, text).len() == buffer.len(),
        terminated_copy(buffer, text).contains(0),
{
    let len = fitting_units(text, buffer.len());
    assert(terminated_copy(buffer, text)[len] == 0);
}

/// A reader of the buffer sees exactly the units that fit, and so the whole
/// text where it is shorter than the buffer. The text itself must not contain
/// the terminator.
pub proof fn law_copy_is_read_back(buffer: Seq<u16>, text: Seq<char>)
    requires
        buffer.len() > 0,
        !text.contains('\0'),
    ensures
        until_zero(terminated_copy(buffer, text)) == utf16(text).take(
            fitting_units(text, buffer.len()),
        ),
        utf16(text).len() < buffer.len() ==> until_zero(terminated_copy(buffer, text)) == utf16(
            text,
        ),
{
    let len = fitting_units(text, buffer.len());
    let units = utf16(text).take(len);
    lemma_units_without_zero(text);
    assert forall|i: int| 0 <= i < units.len() implies units[i] != 0 by {
        assert(utf16(text).contains(utf16(text)[i]));
    }
    lemma_until_zero(units, buffer.skip(len + 1));
    assert(utf16(text).len() < buffer.len() ==> units =~= utf16(text));
}

/// Texts are encoded piece by piece.
pub proof fn law_encoding_of_joined_texts(a: Seq<char>, b: Seq<char>)
    ensures
        utf16(a + b) == utf16(a) + utf16(b),
    decreases b.len(),
{
    if b.len() == 0 {
        assert(a + b =~= a);
        assert(utf16(a) + utf16(b) =~= utf16(a));
    } else {
        law_encoding_of_joined_texts(a, b.drop_last());
        assert((a + b).drop_last() =~= a + b.drop_last());
        assert((a + b).last() == b.last());
        assert(utf16(a) + (utf16(b.drop_last()) + utf16_char(b.last())) =~= (utf16(a) + utf16(
            b.drop_last(),
        )) + utf16_char(b.last()));
    }
}

/// The code units of a single character: its number where that fits into one
/// unit, and otherwise a high and a low surrogate whose ten bits each make up
/// what the number exceeds 0x10000 by.
pub proof fn law_encoding_of_one_character(c: char)
    ensures
        ({
            let units = utf16(seq![c]);
            &&& (c as int) < 0x1_0000 ==> units.len() == 1 && units[0] == c as int
            &&& (c as int) >= 0x1_0000 ==> {
                &&& units.len() == 2
                &&& 0xD800 <= units[0] < 0xDC00
                &&& 0xDC00 <= units[1] < 0xE000
                &&& (units[0] - 0xD800) * 0x400 + (units[1] - 0xDC00) + 0x1_0000 == c as int
            }
        }),
{
    lemma_char_units(c);
    assert(seq![c].drop_last() =~= Seq::<char>::empty());
    assert(utf16(Seq::<char>::empty()) =~= Seq::<u16>::empty());
    assert(utf16(seq![c]) =~= utf16_char(c));
}

/// Unit by unit, a buffer into which a text was copied holds as many units of the
/// text as leave room for the terminator, then the terminator, and then what it
/// held before.
pub proof fn law_copy_unit_by_unit(buffer: Seq<u16>, text: Seq<char>, i: int)
    requires
        0 <= i < buffer.len(),
    ensures
        ({
            let units = utf16(text);
            let len = if units.len() <= buffer.len() - 1 {
                units.len() as int
            } else {
                buffer.len() - 1
            };
            terminated_copy(buffer, text)[i] == if i < len {
                units[i]
            } else if i == len {
                0
            } else {
                buffer[i]
            }
        }),
{
}

/// A character takes one or two units.
pub(crate) proof fn lemma_units_per_character(text: Seq<char>)
    ensures
        text.len() <= utf16(text).len() <= 2 * text.len(),
    decreases text.len(),
{
    if text.len() > 0 {
        lemma_char_units(text.last());
        lemma_units_per_character(text.drop_last());
    }
}

} // verus!
