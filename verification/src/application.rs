//! What a host tells its plug-ins about itself.

use crate::error::Error;
use crate::util::{surrogate_pair, utf16_lossy};
use vstd::prelude::*;
use vstd::string::*;

verus! {

/// The number of UTF-16 code units that the name of a host may take at the
/// boundary.
pub const NAME_UNITS: usize = 128;

/// The application that hosts the plug-ins.
pub trait HostApplication {
    /// The name of the host.
    fn name(&self) -> &str;
}

/// The UTF-16 code units of one character: the character itself below the
/// supplementary planes, else its high and its low surrogate.
pub open spec fn utf16_of_char(c: char) -> Seq<u16> {
    let u = c as u32;
    if u < 0x10000 {
        seq![u as u16]
    } else {
        seq![
            (0xD800 + (u - 0x10000) / 0x400) as u16,
            (0xDC00 + (u - 0x10000) % 0x400) as u16,
        ]
    }
}

/// The UTF-16 code units of a text.
pub open spec fn utf16_of(text: Seq<char>) -> Seq<u16>
    decreases text.len(),
{
    if text.len() == 0 {
        Seq::empty()
    } else {
        utf16_of(text.drop_last()) + utf16_of_char(text.last())
    }
}

/// The code units of the name `name` that are handed to a plug-in: the
/// first 128 of its UTF-16 form, or all of them where they are fewer.
pub open spec fn name_units_of(name: Seq<char>) -> Seq<u16> {
    if utf16_of(name).len() <= NAME_UNITS {
        utf16_of(name)
    } else {
        utf16_of(name).take(NAME_UNITS as int)
    }
}

/// The code units to write into the buffer that a plug-in hands over when
/// it asks for the name of the host.
pub fn name_units(name: &str) -> (units: Vec<u16>)
    ensures
        units@ == name_units_of(name@),
{
    let len = name.unicode_len();
    let mut units: Vec<u16> = Vec::new();
    let mut index: usize = 0;
    while index < len && units.len() < NAME_UNITS
        invariant
            index <= len,
            len == name@.len(),
            units@.len() <= NAME_UNITS + 1,
            units@ == utf16_of(name@.take(index as int)),
        decreases len - index,
    {
        let c = name.get_char(index);
        let u = c as u32;
        proof {
            let next = name@.take(index + 1);
            assert(next.drop_last() =~= name@.take(index as int));
            assert(next.last() == c);
        }
        if u < 0x10000 {
            units.push(u as u16);
        } else {
            let v = u - 0x10000;
            units.push((0xD800 + v / 0x400) as u16);
            units.push((0xDC00 + v % 0x400) as u16);
        }
        assert(units@ =~= utf16_of(name@.take(index as int)) + utf16_of_char(c));
        index += 1;
    }
    proof {
        lemma_utf16_prefix(name@, index as int);
        if index == len {
            assert(name@.take(index as int) =~= name@);
        }
    }
    if units.len() > NAME_UNITS {
        units.truncate(NAME_UNITS);
    }
    assert(units@ =~= name_units_of(name@));
    units
}

/// The UTF-16 form of a prefix of a text is a prefix of the UTF-16 form of
/// the text.
pub proof fn lemma_utf16_prefix(text: Seq<char>, n: int)
    requires
        0 <= n <= text.len(),
    ensures
        utf16_of(text.take(n)).len() <= utf16_of(text).len(),
        utf16_of(text.take(n)) == utf16_of(text).take(utf16_of(text.take(n)).len() as int),
    decreases text.len(),
{
    if n == text.len() {
        assert(text.take(n) =~= text);
        assert(utf16_of(text).take(utf16_of(text).len() as int) =~= utf16_of(text));
    } else {
        let front = text.drop_last();
        lemma_utf16_prefix(front, n);
        assert(front.take(n) =~= text.take(n));
        let k = utf16_of(text.take(n)).len() as int;
        assert(utf16_of(text).take(k) =~= utf16_of(front).take(k));
    }
}

/// The UTF-16 form of a text that starts with `c` starts with the units of
/// `c`.
pub proof fn lemma_utf16_of_first(c: char, rest: Seq<char>)
    ensures
        utf16_of(seq![c] + rest) == utf16_of_char(c) + utf16_of(rest),
    decreases rest.len(),
{
    let text = seq![c] + rest;
    if rest.len() == 0 {
        assert(text.drop_last() =~= Seq::<char>::empty());
        assert(utf16_of(text.drop_last()) =~= Seq::<u16>::empty());
        assert(utf16_of(text) =~= utf16_of_char(c) + utf16_of(rest));
    } else {
        lemma_utf16_of_first(c, rest.drop_last());
        assert(text.drop_last() =~= seq![c] + rest.drop_last());
        assert(text.last() == rest.last());
        assert(utf16_of(text) =~= utf16_of_char(c) + utf16_of(rest));
    }
}

/// Reading the UTF-16 form of a text gives the text back: the units that
/// a host name is handed over as stand for that name.
pub proof fn lemma_utf16_round_trip(text: Seq<char>)
    ensures
        utf16_lossy(utf16_of(text)) == text,
    decreases text.len(),
{
    if text.len() == 0 {
        assert(utf16_lossy(utf16_of(text)) =~= text);
    } else {
        let c = text[0];
        let rest = text.drop_first();
        assert(text =~= seq![c] + rest);
        lemma_utf16_of_first(c, rest);
        lemma_utf16_round_trip(rest);
        let units = utf16_of_char(c) + utf16_of(rest);
        let u = c as u32;
        vstd::utf8::char_is_scalar(c);
        vstd::utf8::char_u32_cast(c, u);
        if u < 0x10000 {
            assert(units[0] == u as u16);
            assert(units.skip(1) =~= utf16_of(rest));
            assert(units[0] as int == u as int);
            assert(units[0] as char == u as char);
        } else {
            let v = u - 0x10000;
            assert(units[0] == (0xD800 + v / 0x400) as u16);
            assert(units[1] == (0xDC00 + v % 0x400) as u16);
            assert(units.skip(2) =~= utf16_of(rest));
            assert(units[0] as int == 0xD800 + v / 0x400);
            assert(units[1] as int == 0xDC00 + v % 0x400);
            assert(0x10000 + (units[0] - 0xD800) * 0x400 + (units[1] - 0xDC00) == u as int);
            assert(surrogate_pair(units[0], units[1]) == u as char);
        }
        assert(utf16_lossy(units) =~= seq![c] + rest);
    }
}

/// A host creates no objects for its plug-ins: the answer to such a
/// request is `Error::NoInterface`.
pub fn refuse_instance() -> (result: Result<(), Error>)
    ensures
        result == Err::<(), Error>(Error::NoInterface),
{
    Err(Error::NoInterface)
}

} // verus!
