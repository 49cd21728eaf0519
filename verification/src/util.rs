//! Text helpers: the class-id codec and the conversion of the fixed-size,
//! zero-terminated character arrays of the plug-in interface.

use crate::error::Error;
use vstd::prelude::*;
use vstd::string::*;

verus! {

/// A class identifier: sixteen raw bytes.
pub type ClassId = [u8; 16];

/// Whether `c` is one of `0-9`, `a-f`, `A-F`.
pub open spec fn is_hex_digit(c: char) -> bool {
    ('0' <= c && c <= '9') || ('a' <= c && c <= 'f') || ('A' <= c && c <= 'F')
}

/// The number that the hexadecimal digit `c` stands for.
pub open spec fn hex_digit_value(c: char) -> int {
    if '0' <= c && c <= '9' {
        (c as u32) - ('0' as u32)
    } else if 'a' <= c && c <= 'f' {
        (c as u32) - ('a' as u32) + 10
    } else {
        (c as u32) - ('A' as u32) + 10
    }
}

/// The upper-case hexadecimal digit for `value`, which is below 16.
pub open spec fn hex_digit(value: int) -> char {
    seq!['0', '1', '2', '3', '4', '5', '6', '7', '8', '9', 'A', 'B', 'C', 'D', 'E', 'F'][value]
}

/// Whether `text` is a class id in text form: 32 hexadecimal digits.
pub open spec fn is_class_id_text(text: Seq<char>) -> bool {
    text.len() == 32 && forall|i: int| 0 <= i < 32 ==> is_hex_digit(#[trigger] text[i])
}

/// The `i`-th byte of the class id that `text` spells: two digits per byte,
/// the high one first.
pub open spec fn class_id_byte(text: Seq<char>, i: int) -> u8 {
    (16 * hex_digit_value(text[2 * i]) + hex_digit_value(text[2 * i + 1])) as u8
}

/// The class id that `text` spells.
pub open spec fn class_id_of_text(text: Seq<char>) -> Seq<u8> {
    Seq::new(16, |i: int| class_id_byte(text, i))
}

/// The `i`-th digit of the text form of `cid`.
pub open spec fn class_id_digit(cid: Seq<u8>, i: int) -> char {
    if i % 2 == 0 {
        hex_digit(cid[i / 2] as int / 16)
    } else {
        hex_digit(cid[i / 2] as int % 16)
    }
}

/// The text form of `cid`, in upper case.
pub open spec fn text_of_class_id(cid: Seq<u8>) -> Seq<char> {
    Seq::new(32, |i: int| class_id_digit(cid, i))
}

fn parse_hexit(byte: u8) -> (value: Option<u8>)
    requires
        byte < 128,
    ensures
        value is Some <==> is_hex_digit(byte as char),
        value matches Some(v) ==> v == hex_digit_value(byte as char) && v < 16,
{
    if 0x30 <= byte && byte <= 0x39 {
        Some(byte - 0x30)
    } else if 0x61 <= byte && byte <= 0x66 {
        Some(byte - 0x61 + 10)
    } else if 0x41 <= byte && byte <= 0x46 {
        Some(byte - 0x41 + 10)
    } else {
        None
    }
}

/// Reads a class id from its text form: 32 hexadecimal digits in either
/// case, two per byte. Anything else is an invalid argument.
pub fn parse_class_id(s: &str) -> (result: Result<ClassId, Error>)
    ensures
        is_class_id_text(s@) ==> (result matches Ok(cid) && cid@ == class_id_of_text(s@)),
        !is_class_id_text(s@) ==> result == Err::<ClassId, Error>(Error::InvalidArg),
{
    if !s.is_ascii() {
        proof {
            if is_class_id_text(s@) {
                assert forall|i: int| 0 <= i < s@.len() implies '\0' <= #[trigger] s@[i]
                    && s@[i] <= '\u{7f}' by {
                    assert(is_hex_digit(s@[i]));
                }
            }
        }
        return Err(Error::InvalidArg);
    }
    let bytes = s.as_bytes();
    proof {
        vstd::utf8::is_ascii_chars_encode_utf8(s@);
    }
    if bytes.len() != 32 {
        return Err(Error::InvalidArg);
    }
    let mut cid: ClassId = [0u8; 16];
    let mut idx: usize = 0;
    while idx < 16
        invariant
            idx <= 16,
            bytes@.len() == 32,
            s@.len() == 32,
            forall|i: int| 0 <= i < 32 ==> '\0' <= #[trigger] s@[i] && s@[i] <= '\u{7f}',
            forall|i: int| 0 <= i < 32 ==> s@[i] as u8 == #[trigger] bytes@[i],
            forall|i: int| 0 <= i < 2 * idx ==> is_hex_digit(#[trigger] s@[i]),
            forall|i: int| 0 <= i < idx ==> #[trigger] cid@[i] == class_id_byte(s@, i),
        decreases 16 - idx,
    {
        let hi_byte: u8 = bytes[2 * idx];
        let lo_byte: u8 = bytes[2 * idx + 1];
        assert(hi_byte as char == s@[2 * idx as int]);
        assert(lo_byte as char == s@[2 * idx as int + 1]);
        let hi: u8 = match parse_hexit(hi_byte) {
            Some(v) => v,
            None => {
                return Err(Error::InvalidArg);
            },
        };
        let lo: u8 = match parse_hexit(lo_byte) {
            Some(v) => v,
            None => {
                return Err(Error::InvalidArg);
            },
        };
        assert((hi << 4) | lo == 16 * hi + lo) by (bit_vector)
            requires
                hi < 16,
                lo < 16,
        ;
        cid[idx] = (hi << 4) | lo;
        idx += 1;
    }
    assert(cid@ =~= class_id_of_text(s@));
    Ok(cid)
}

fn hex_digit_str(value: u8) -> (digit: &'static str)
    requires
        value < 16,
    ensures
        digit@ == seq![hex_digit(value as int)],
{
    proof {
        reveal_strlit("0");
        reveal_strlit("1");
        reveal_strlit("2");
        reveal_strlit("3");
        reveal_strlit("4");
        reveal_strlit("5");
        reveal_strlit("6");
        reveal_strlit("7");
        reveal_strlit("8");
        reveal_strlit("9");
        reveal_strlit("A");
        reveal_strlit("B");
        reveal_strlit("C");
        reveal_strlit("D");
        reveal_strlit("E");
        reveal_strlit("F");
    }
    let digit = match value {
        0 => "0",
        1 => "1",
        2 => "2",
        3 => "3",
        4 => "4",
        5 => "5",
        6 => "6",
        7 => "7",
        8 => "8",
        9 => "9",
        10 => "A",
        11 => "B",
        12 => "C",
        13 => "D",
        14 => "E",
        _ => "F",
    };
    assert(digit@ =~= seq![hex_digit(value as int)]);
    digit
}

/// Writes a class id in its text form: 32 upper-case hexadecimal digits.
pub fn format_class_id(cid: &ClassId) -> (text: String)
    ensures
        text@ == text_of_class_id(cid@),
{
    let mut text = String::new();
    let mut idx: usize = 0;
    while idx < 16
        invariant
            idx <= 16,
            text@.len() == 2 * idx,
            forall|i: int| 0 <= i < 2 * idx ==> #[trigger] text@[i] == class_id_digit(cid@, i),
        decreases 16 - idx,
    {
        let byte: u8 = cid[idx];
        text.append(hex_digit_str(byte / 16));
        text.append(hex_digit_str(byte % 16));
        idx += 1;
    }
    assert(text@ =~= text_of_class_id(cid@));
    text
}

/// Decoding the text form of a class id gives the class id back.
pub proof fn lemma_class_id_round_trip(cid: Seq<u8>)
    requires
        cid.len() == 16,
    ensures
        is_class_id_text(text_of_class_id(cid)),
        class_id_of_text(text_of_class_id(cid)) == cid,
{
    let text = text_of_class_id(cid);
    assert forall|i: int| 0 <= i < 32 implies is_hex_digit(#[trigger] text[i]) by {
        lemma_hex_digit_value(cid[i / 2] as int / 16);
        lemma_hex_digit_value(cid[i / 2] as int % 16);
    }
    assert forall|i: int| 0 <= i < 16 implies class_id_byte(text, i) == cid[i] by {
        lemma_hex_digit_value(cid[i] as int / 16);
        lemma_hex_digit_value(cid[i] as int % 16);
        assert(text[2 * i] == hex_digit(cid[i] as int / 16));
        assert(text[2 * i + 1] == hex_digit(cid[i] as int % 16));
    }
    assert(class_id_of_text(text) =~= cid);
}

/// Every digit that the encoder writes is a hexadecimal digit with the value
/// that it was written for.
pub proof fn lemma_hex_digit_value(value: int)
    requires
        0 <= value < 16,
    ensures
        is_hex_digit(hex_digit(value)),
        hex_digit_value(hex_digit(value)) == value,
{
}

/// The number of items of `items` that stand before the first `stop`: all
/// of them where it holds none.
pub open spec fn len_before<T>(items: Seq<T>, stop: T) -> nat
    decreases items.len(),
{
    if items.len() == 0 || items[0] == stop {
        0
    } else {
        1 + len_before(items.drop_first(), stop)
    }
}

/// The items of `items` that stand before the first `stop`.
pub open spec fn items_before<T>(items: Seq<T>, stop: T) -> Seq<T> {
    items.take(len_before(items, stop) as int)
}

/// `len_before` is the one position that has no `stop` before it and holds
/// the first `stop`, or is the end.
pub proof fn lemma_len_before<T>(items: Seq<T>, stop: T, n: int)
    requires
        0 <= n <= items.len(),
        forall|i: int| 0 <= i < n ==> items[i] != stop,
        n < items.len() ==> items[n] == stop,
    ensures
        len_before(items, stop) == n,
    decreases n,
{
    if n > 0 {
        let rest = items.drop_first();
        assert forall|i: int| 0 <= i < n - 1 implies rest[i] != stop by {
            assert(rest[i] == items[i + 1]);
        }
        lemma_len_before(rest, stop, n - 1);
    }
}

/// `len_before` never passes the end, nothing before it is a `stop`, and
/// where it is not the end it is the place of a `stop`.
pub proof fn lemma_len_before_bounds<T>(items: Seq<T>, stop: T)
    ensures
        len_before(items, stop) <= items.len(),
        forall|i: int| 0 <= i < len_before(items, stop) ==> items[i] != stop,
        len_before(items, stop) < items.len() ==> items[len_before(items, stop) as int] == stop,
    decreases items.len(),
{
    if items.len() > 0 && items[0] != stop {
        let rest = items.drop_first();
        lemma_len_before_bounds(rest, stop);
        assert forall|i: int| 0 <= i < len_before(items, stop) implies items[i] != stop by {
            if i > 0 {
                assert(rest[i - 1] == items[i]);
            }
        }
        if len_before(items, stop) < items.len() {
            assert(rest[len_before(rest, stop) as int] == items[len_before(items, stop) as int]);
        }
    }
}

/// What `String::from_utf8_lossy` makes of `bytes`: the text that they
/// encode, with a replacement character for each ill-formed part.
pub uninterp spec fn utf8_lossy(bytes: Seq<u8>) -> Seq<char>;

/// Whether `unit` is the first half of a surrogate pair.
pub open spec fn is_high_surrogate(unit: u16) -> bool {
    0xD800 <= unit && unit <= 0xDBFF
}

/// Whether `unit` is the second half of a surrogate pair.
pub open spec fn is_low_surrogate(unit: u16) -> bool {
    0xDC00 <= unit && unit <= 0xDFFF
}

/// The character that the surrogate pair `high`, `low` stands for.
pub open spec fn surrogate_pair(high: u16, low: u16) -> char {
    (0x10000 + (high - 0xD800) * 0x400 + (low - 0xDC00)) as char
}

/// The text that UTF-16 code units stand for, read from the front: a unit
/// outside the surrogates is the character of its number, a first half
/// followed by a second half is the character of the pair, and every other
/// surrogate is the replacement character U+FFFD.
pub open spec fn utf16_lossy(units: Seq<u16>) -> Seq<char>
    decreases units.len(),
{
    if units.len() == 0 {
        Seq::empty()
    } else if is_high_surrogate(units[0]) && units.len() >= 2 && is_low_surrogate(units[1]) {
        seq![surrogate_pair(units[0], units[1])] + utf16_lossy(units.skip(2))
    } else if is_high_surrogate(units[0]) || is_low_surrogate(units[0]) {
        seq!['\u{FFFD}'] + utf16_lossy(units.skip(1))
    } else {
        seq![units[0] as char] + utf16_lossy(units.skip(1))
    }
}

/// Calls `String::from_utf8_lossy`. Its result is a function of the bytes
/// alone; on well-formed UTF-8 it is the text that the bytes encode.
#[verifier::external_body]
fn string_from_utf8_lossy(bytes: &[u8]) -> (text: String)
    ensures
        text@ == utf8_lossy(bytes@),
        vstd::utf8::valid_utf8(bytes@) ==> text@ == vstd::utf8::decode_utf8(bytes@),
{
    String::from_utf8_lossy(bytes).into_owned()
}

/// Calls `String::from_utf16_lossy`, which decodes the units as `utf16_lossy`
/// says: it puts U+FFFD in the place of every unpaired surrogate.
#[verifier::external_body]
fn string_from_utf16_lossy(units: &[u16]) -> (text: String)
    ensures
        text@ == utf16_lossy(units@),
{
    String::from_utf16_lossy(units)
}

/// The text held by a fixed-size array of UTF-8 bytes that ends at the first
/// zero byte, or at the end of the array.
pub open spec fn text_of_bytes(bytes: Seq<u8>) -> Seq<char> {
    utf8_lossy(items_before(bytes, 0u8))
}

/// The text held by a fixed-size array of UTF-16 code units that ends at the
/// first zero unit, or at the end of the array.
pub open spec fn text_of_units(units: Seq<u16>) -> Seq<char> {
    utf16_lossy(items_before(units, 0u16))
}

/// Conversion of a zero-terminated character array into an owned string.
pub trait ToRustString {
    fn to_rust_string(&self) -> String;
}

impl<const N: usize> ToRustString for [u8; N] {
    fn to_rust_string(&self) -> (text: String)
        ensures
            text@ == text_of_bytes(self@),
            vstd::utf8::valid_utf8(items_before(self@, 0u8)) ==> text@ == vstd::utf8::decode_utf8(
                items_before(self@, 0u8),
            ),
    {
        let mut len: usize = 0;
        while len < N && self[len] != 0
            invariant
                len <= N,
                self@.len() == N,
                forall|i: int| 0 <= i < len ==> self@[i] != 0u8,
            decreases N - len,
        {
            len += 1;
        }
        proof {
            lemma_len_before(self@, 0u8, len as int);
        }
        let prefix = slice_prefix(self.as_slice(), len);
        string_from_utf8_lossy(prefix)
    }
}

impl<const N: usize> ToRustString for [u16; N] {
    fn to_rust_string(&self) -> (text: String)
        ensures
            text@ == text_of_units(self@),
    {
        let mut len: usize = 0;
        while len < N && self[len] != 0
            invariant
                len <= N,
                self@.len() == N,
                forall|i: int| 0 <= i < len ==> self@[i] != 0u16,
            decreases N - len,
        {
            len += 1;
        }
        proof {
            lemma_len_before(self@, 0u16, len as int);
        }
        let prefix = slice_prefix(self.as_slice(), len);
        string_from_utf16_lossy(prefix)
    }
}

fn slice_prefix<T>(items: &[T], len: usize) -> (prefix: &[T])
    requires
        len <= items@.len(),
    ensures
        prefix@ == items@.take(len as int),
{
    let (prefix, _) = items.split_at(len);
    prefix
}

/// Whether two strings hold the same text.
pub fn str_eq(a: &str, b: &str) -> (same: bool)
    ensures
        same == (a@ == b@),
{
    let a_bytes = a.as_bytes();
    let b_bytes = b.as_bytes();
    proof {
        vstd::utf8::encode_utf8_decode_utf8(a@);
        vstd::utf8::encode_utf8_decode_utf8(b@);
    }
    if a_bytes.len() != b_bytes.len() {
        return false;
    }
    let mut i: usize = 0;
    while i < a_bytes.len()
        invariant
            i <= a_bytes@.len(),
            a_bytes@.len() == b_bytes@.len(),
            a_bytes@ == a.spec_bytes(),
            b_bytes@ == b.spec_bytes(),
            vstd::utf8::decode_utf8(a.spec_bytes()) == a@,
            vstd::utf8::decode_utf8(b.spec_bytes()) == b@,
            forall|j: int| 0 <= j < i ==> a_bytes@[j] == b_bytes@[j],
        decreases a_bytes@.len() - i,
    {
        if a_bytes[i] != b_bytes[i] {
            return false;
        }
        i += 1;
    }
    assert(a_bytes@ =~= b_bytes@);
    true
}

/// The first `n` characters of `s`, or all of it where it has fewer.
pub fn truncate(s: &str, n: usize) -> (head: &str)
    ensures
        n < s@.len() ==> head@ == s@.take(n as int),
        n >= s@.len() ==> head@ == s@,
{
    let len = s.unicode_len();
    if n < len {
        s.substring_char(0, n)
    } else {
        s
    }
}

/// The parts of `text` between the occurrences of `sep`, in order. A text
/// without `sep` is its own single part, the empty text too.
pub open spec fn split_text(text: Seq<char>, sep: char) -> Seq<Seq<char>>
    decreases text.len(),
{
    let n = len_before(text, sep) as int;
    if n >= text.len() {
        seq![text]
    } else {
        seq![text.take(n)] + split_text(text.skip(n + 1), sep)
    }
}

/// The texts held by a list of strings.
pub open spec fn texts(strings: Seq<String>) -> Seq<Seq<char>> {
    strings.map_values(|s: String| s@)
}

/// Splits `text` at every `sep`.
pub fn split_on(text: &str, sep: char) -> (parts: Vec<String>)
    ensures
        texts(parts@) == split_text(text@, sep),
{
    let len = text.unicode_len();
    let mut parts: Vec<String> = Vec::new();
    let mut start: usize = 0;
    let mut i: usize = 0;
    proof {
        assert(text@.skip(0) =~= text@);
        assert(texts(parts@) + split_text(text@, sep) =~= split_text(text@, sep));
    }
    while i < len
        invariant
            start <= i <= len,
            len == text@.len(),
            forall|j: int| start <= j < i ==> text@[j] != sep,
            split_text(text@, sep) == texts(parts@) + split_text(text@.skip(start as int), sep),
        decreases len - i,
    {
        if text.get_char(i) == sep {
            let part = String::from_str(text.substring_char(start, i));
            proof {
                let rest = text@.skip(start as int);
                let n = i - start;
                assert forall|j: int| 0 <= j < n implies rest[j] != sep by {
                    assert(rest[j] == text@[start + j]);
                }
                assert(rest[n] == sep);
                lemma_len_before(rest, sep, n);
                assert(rest.take(n) =~= text@.subrange(start as int, i as int));
                assert(rest.skip(n + 1) =~= text@.skip(i + 1));
                assert(texts(parts@.push(part)) =~= texts(parts@) + seq![part@]);
            }
            parts.push(part);
            start = i + 1;
        }
        i += 1;
    }
    let part = String::from_str(text.substring_char(start, len));
    proof {
        let rest = text@.skip(start as int);
        let n = len - start;
        assert forall|j: int| 0 <= j < n implies rest[j] != sep by {
            assert(rest[j] == text@[start + j]);
        }
        lemma_len_before(rest, sep, n);
        assert(rest =~= text@.subrange(start as int, len as int));
        assert(texts(parts@.push(part)) =~= texts(parts@) + seq![part@]);
    }
    parts.push(part);
    parts
}

/// The last part of a file name behind its last dot. A name without a dot
/// has none, nor a name whose only dot stands first, nor the name `..`.
pub open spec fn extension_of(name: Seq<char>) -> Option<Seq<char>> {
    let k = last_dot(name);
    if k <= 0 || name == seq!['.', '.'] {
        None
    } else {
        Some(name.skip(k + 1))
    }
}

/// The place of the last dot in `name`, or -1 where there is none.
pub open spec fn last_dot(name: Seq<char>) -> int {
    last_place(name, '.')
}

/// The place of the last `mark` in `text`, or -1 where there is none.
pub open spec fn last_place(text: Seq<char>, mark: char) -> int
    decreases text.len(),
{
    if text.len() == 0 {
        -1
    } else if text.last() == mark {
        text.len() - 1
    } else {
        last_place(text.drop_last(), mark)
    }
}

/// The place of the last `mark` of `text` is `k` where a `mark` stands at
/// `k` and none behind it, and -1 where no `mark` stands at all.
pub proof fn lemma_last_place(text: Seq<char>, mark: char, k: int)
    requires
        -1 <= k < text.len(),
        k >= 0 ==> text[k] == mark,
        forall|i: int| k < i < text.len() ==> text[i] != mark,
    ensures
        last_place(text, mark) == k,
    decreases text.len(),
{
    if text.len() > 0 && k < text.len() - 1 {
        let front = text.drop_last();
        assert forall|i: int| k < i < front.len() implies front[i] != mark by {
            assert(front[i] == text[i]);
        }
        lemma_last_place(front, mark, k);
    }
}

/// The last `mark` of a text stands inside the text, where there is one.
pub proof fn lemma_last_place_bounds(text: Seq<char>, mark: char)
    ensures
        -1 <= last_place(text, mark) < text.len(),
        last_place(text, mark) >= 0 ==> text[last_place(text, mark)] == mark,
    decreases text.len(),
{
    if text.len() > 0 && text.last() != mark {
        lemma_last_place_bounds(text.drop_last(), mark);
    }
}

/// The extension of the file name `name`, as `extension_of` defines it.
pub fn extension(name: &str) -> (ext: Option<&str>)
    ensures
        match ext {
            Some(e) => Some(e@),
            None => None,
        } == extension_of(name@),
{
    let len = name.unicode_len();
    let mut k: usize = len;
    while k > 0 && name.get_char(k - 1) != '.'
        invariant
            k <= len,
            len == name@.len(),
            forall|i: int| k <= i < len ==> name@[i] != '.',
        decreases k,
    {
        k -= 1;
    }
    proof {
        lemma_last_place(name@, '.', k as int - 1);
    }
    if k <= 1 {
        return None;
    }
    if len == 2 && name.get_char(0) == '.' {
        assert(name@ =~= seq!['.', '.']);
        return None;
    }
    proof {
        if name@ == seq!['.', '.'] {
            assert(name@.len() == 2);
            assert(name@[0] == '.');
        }
    }
    Some(name.substring_char(k, len))
}

/// A file name without its extension: all of it where it has none.
pub open spec fn stem_of(name: Seq<char>) -> Seq<char> {
    match extension_of(name) {
        Some(_) => name.take(last_dot(name)),
        None => name,
    }
}

/// The stem of the file name `name`, as `stem_of` defines it.
pub fn stem(name: &str) -> (stem: &str)
    ensures
        stem@ == stem_of(name@),
{
    match extension(name) {
        Some(ext) => {
            let len = name.unicode_len();
            let ext_len = ext.unicode_len();
            proof {
                lemma_last_place_bounds(name@, '.');
            }
            name.substring_char(0, len - ext_len - 1)
        },
        None => name,
    }
}

/// A path without the separators at its end.
pub open spec fn without_trailing_separators(path: Seq<char>) -> Seq<char>
    decreases path.len(),
{
    if path.len() > 0 && path.last() == '/' {
        without_trailing_separators(path.drop_last())
    } else {
        path
    }
}

/// The last part of a path: what stands behind the last separator, once
/// the separators at the end of the path are taken off.
pub open spec fn file_name_of(path: Seq<char>) -> Seq<char> {
    let trimmed = without_trailing_separators(path);
    trimmed.skip(last_place(trimmed, '/') + 1)
}

/// The last part of the path `path`, as `file_name_of` defines it.
pub fn file_name(path: &str) -> (name: &str)
    ensures
        name@ == file_name_of(path@),
{
    let len = path.unicode_len();
    let mut end: usize = len;
    proof {
        assert(path@.take(len as int) =~= path@);
    }
    while end > 0 && path.get_char(end - 1) == '/'
        invariant
            end <= len,
            len == path@.len(),
            without_trailing_separators(path@) == without_trailing_separators(
                path@.take(end as int),
            ),
        decreases end,
    {
        proof {
            assert(path@.take(end as int).drop_last() =~= path@.take(end - 1));
        }
        end -= 1;
    }
    let ghost trimmed = path@.take(end as int);
    let mut start: usize = end;
    while start > 0 && path.get_char(start - 1) != '/'
        invariant
            start <= end <= len,
            len == path@.len(),
            trimmed == path@.take(end as int),
            forall|i: int| start <= i < end ==> trimmed[i] != '/',
        decreases start,
    {
        start -= 1;
    }
    proof {
        lemma_last_place(trimmed, '/', start as int - 1);
        assert(trimmed.skip(start as int) =~= path@.subrange(start as int, end as int));
    }
    path.substring_char(start, end)
}

} // verus!
