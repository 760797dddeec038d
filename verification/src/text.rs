//! Text as the service manager takes and gives it: UTF-16 with a terminating
//! zero, and argument lists joined by spaces.

use vstd::prelude::*;

verus! {

/// The character that stands in for what cannot be decoded.
pub const REPLACEMENT_CHARACTER: char = '\u{FFFD}';

/// Whether a code unit is the first half of a surrogate pair.
pub open spec fn is_high_surrogate(unit: u16) -> bool {
    0xD800 <= unit <= 0xDBFF
}

/// Whether a code unit is the second half of a surrogate pair.
pub open spec fn is_low_surrogate(unit: u16) -> bool {
    0xDC00 <= unit <= 0xDFFF
}

/// What a lossy decoding of UTF-16 code units gives: a high surrogate and
/// the low surrogate after it give the character that the pair encodes, any
/// other surrogate gives the replacement character, and any other unit gives
/// the character of its value.
pub open spec fn lossy_text(units: Seq<u16>) -> Seq<char>
    decreases units.len(),
{
    if units.len() == 0 {
        Seq::empty()
    } else if is_high_surrogate(units[0]) && units.len() >= 2 && is_low_surrogate(units[1]) {
        seq![
            (0x10000 + (units[0] - 0xD800) * 0x400 + (units[1] - 0xDC00)) as char,
        ] + lossy_text(units.skip(2))
    } else if is_high_surrogate(units[0]) || is_low_surrogate(units[0]) {
        seq![REPLACEMENT_CHARACTER] + lossy_text(units.drop_first())
    } else {
        seq![units[0] as char] + lossy_text(units.drop_first())
    }
}

/// The UTF-16 code units of one character: the character itself below
/// U+10000, a high and a low surrogate above.
pub open spec fn utf16_units(c: char) -> Seq<u16> {
    let v = c as u32;
    if v < 0x10000 {
        seq![v as u16]
    } else {
        seq![(0xD800 + (v - 0x10000) / 0x400) as u16, (0xDC00 + (v - 0x10000) % 0x400) as u16]
    }
}

/// The UTF-16 encoding of a text.
pub open spec fn utf16_text(text: Seq<char>) -> Seq<u16>
    decreases text.len(),
{
    if text.len() == 0 {
        Seq::empty()
    } else {
        utf16_text(text.drop_last()) + utf16_units(text.last())
    }
}

/// The UTF-16 encoding of a text, followed by the terminating zero.
pub open spec fn wide_text(text: Seq<char>) -> Seq<u16> {
    utf16_text(text).push(0u16)
}

/// The texts of a list of strings, joined with one space between neighbours.
pub open spec fn joined(parts: Seq<String>) -> Seq<char>
    decreases parts.len(),
{
    if parts.len() == 0 {
        Seq::empty()
    } else if parts.len() == 1 {
        parts[0]@
    } else {
        joined(parts.drop_last()) + seq![' '] + parts.last()@
    }
}

/// The code units that stand before the first zero, or all of them where
/// there is no zero.
pub open spec fn until_nul(units: Seq<u16>) -> Seq<u16>
    decreases units.len(),
{
    if units.len() == 0 || units[0] == 0 {
        Seq::empty()
    } else {
        seq![units[0]] + until_nul(units.drop_first())
    }
}

/// The encoding of a text begins with that of its first character.
pub proof fn lemma_utf16_text_first(text: Seq<char>)
    requires
        text.len() > 0,
    ensures
        utf16_text(text) == utf16_units(text[0]) + utf16_text(text.drop_first()),
    decreases text.len(),
{
    if text.len() == 1 {
        assert(text.drop_last() =~= Seq::<char>::empty());
        assert(text.drop_first() =~= Seq::<char>::empty());
        assert(utf16_text(text) =~= utf16_units(text[0]) + utf16_text(text.drop_first()));
    } else {
        let front = text.drop_last();
        lemma_utf16_text_first(front);
        assert(front.drop_first() =~= text.drop_first().drop_last());
        assert(text.drop_first().last() == text.last());
        assert(utf16_text(text) =~= utf16_units(text[0]) + utf16_text(text.drop_first()));
    }
}

/// The code units of a character are decoded to that character, whatever
/// follows them.
pub proof fn lemma_lossy_text_of_units(c: char, rest: Seq<u16>)
    ensures
        lossy_text(utf16_units(c) + rest) == seq![c] + lossy_text(rest),
{
    let units = utf16_units(c) + rest;
    let v = c as u32;
    if v < 0x10000 {
        assert(units[0] == v as u16);
        assert(units.drop_first() =~= rest);
        assert(units[0] as char == c);
    } else {
        let x = (v - 0x10000) as int;
        assert(units[0] == (0xD800 + x / 0x400) as u16);
        assert(units[1] == (0xDC00 + x % 0x400) as u16);
        assert(units.skip(2) =~= rest);
        assert(0x10000 + (units[0] - 0xD800) * 0x400 + (units[1] - 0xDC00) == v);
        assert(v as char == c);
    }
}

/// Decoding undoes encoding: the lossy decoding of the encoding of a text
/// is the text.
pub proof fn lemma_decoding_undoes_encoding(text: Seq<char>)
    ensures
        lossy_text(utf16_text(text)) == text,
    decreases text.len(),
{
    if text.len() > 0 {
        lemma_utf16_text_first(text);
        lemma_lossy_text_of_units(text[0], utf16_text(text.drop_first()));
        lemma_decoding_undoes_encoding(text.drop_first());
        assert(seq![text[0]] + text.drop_first() =~= text);
    }
}

/// Units without a zero, followed by a zero, are read up to that zero.
pub proof fn lemma_until_nul_of_terminated(units: Seq<u16>)
    requires
        forall|i: int| 0 <= i < units.len() ==> units[i] != 0,
    ensures
        until_nul(units.push(0u16)) == units,
    decreases units.len(),
{
    let whole = units.push(0u16);
    if units.len() == 0 {
        assert(whole[0] == 0);
        assert(until_nul(whole) =~= units);
    } else {
        let rest = units.drop_first();
        assert(whole[0] == units[0]);
        assert(whole.drop_first() =~= rest.push(0u16));
        assert forall|i: int| 0 <= i < rest.len() implies rest[i] != 0 by {
            assert(rest[i] == units[i + 1]);
        }
        lemma_until_nul_of_terminated(rest);
        assert(until_nul(whole) =~= units);
    }
}

/// Whether a text is free of the zero character.
pub open spec fn without_zero(text: Seq<char>) -> bool {
    forall|i: int| 0 <= i < text.len() ==> text[i] as u32 != 0
}

/// The code units of a character other than the zero character are not
/// zero.
pub proof fn lemma_units_without_zero(c: char)
    requires
        c as u32 != 0,
    ensures
        forall|i: int| 0 <= i < utf16_units(c).len() ==> utf16_units(c)[i] != 0,
{
}

/// The encoding of a text without the zero character holds no zero.
pub proof fn lemma_utf16_text_without_zero(text: Seq<char>)
    requires
        without_zero(text),
    ensures
        forall|i: int| 0 <= i < utf16_text(text).len() ==> utf16_text(text)[i] != 0,
    decreases text.len(),
{
    if text.len() > 0 {
        let front = text.drop_last();
        assert forall|i: int| 0 <= i < front.len() implies front[i] as u32 != 0 by {
            assert(front[i] == text[i]);
        }
        lemma_utf16_text_without_zero(front);
        let head = utf16_text(front);
        let tail = utf16_units(text.last());
        assert(text.last() == text[text.len() - 1]);
        lemma_units_without_zero(text.last());
        assert forall|i: int| 0 <= i < utf16_text(text).len() implies utf16_text(text)[i]
            != 0 by {
            if i < head.len() {
                assert(utf16_text(text)[i] == head[i]);
            } else {
                assert(utf16_text(text)[i] == tail[i - head.len()]);
            }
        }
    }
}

/// What `get_utf16` makes of an argument, `convert_args` turns back into the
/// argument: a text without the zero character is the lossy decoding of its
/// wide form, read up to the first zero.
pub proof fn lemma_wide_text_round_trip(text: Seq<char>)
    requires
        without_zero(text),
    ensures
        until_nul(wide_text(text)) == utf16_text(text),
        lossy_text(until_nul(wide_text(text))) == text,
{
    lemma_utf16_text_without_zero(text);
    lemma_until_nul_of_terminated(utf16_text(text));
    lemma_decoding_undoes_encoding(text);
}

/// Decodes UTF-16 code units into a string, replacing what is not valid.
///
/// Calls `widestring::U16Str::from_slice` and `U16Str::to_string_lossy`, which
/// hands the units to `String::from_utf16_lossy`. The result is claimed to be
/// the lossy decoding of the units as `lossy_text` states it: surrogate pairs
/// are decoded, and each unpaired surrogate gives one replacement character.
#[verifier::external_body]
fn decode_lossy(units: &Vec<u16>) -> (text: String)
    ensures
        text@ == lossy_text(units@),
{
    widestring::U16Str::from_slice(units.as_slice()).to_string_lossy()
}

/// Converts a string into UTF-16 with a terminating zero, as the service
/// manager takes its strings.
pub fn get_utf16(value: &str) -> (wide: Vec<u16>)
    ensures
        wide@ == wide_text(value@),
{
    let mut wide: Vec<u16> = Vec::new();
    let n: usize = value.unicode_len();
    let mut i: usize = 0;
    assert(value@.take(0) == Seq::<char>::empty());
    while i < n
        invariant
            i <= n,
            n == value@.len(),
            wide@ == utf16_text(value@.take(i as int)),
        decreases n - i,
    {
        let c = value.get_char(i);
        let v: u32 = c as u32;
        if v < 0x10000 {
            wide.push(v as u16);
        } else {
            let x: u32 = v - 0x10000;
            wide.push((0xD800 + x / 0x400) as u16);
            wide.push((0xDC00 + x % 0x400) as u16);
        }
        proof {
            let next = value@.take(i + 1);
            assert(next.drop_last() == value@.take(i as int));
            assert(next.last() == c);
            assert(wide@ =~= utf16_text(next.drop_last()) + utf16_units(c));
        }
        i += 1;
    }
    assert(value@.take(n as int) == value@);
    wide.push(0);
    wide
}

/// Converts an optional string into optional UTF-16 with a terminating zero.
/// `None` stands for the null pointer that the service manager takes in place
/// of a string that is left out.
pub fn get_optional_utf16(value: Option<&str>) -> (wide: Option<Vec<u16>>)
    ensures
        value is None <==> wide is None,
        value matches Some(s) ==> wide->0@ == wide_text(s@),
{
    match value {
        Some(s) => Some(get_utf16(s)),
        None => None,
    }
}

/// The code units of `units` up to its first zero.
pub fn truncate_at_nul(units: &Vec<u16>) -> (head: Vec<u16>)
    ensures
        head@ == until_nul(units@),
{
    let mut head: Vec<u16> = Vec::new();
    let mut i: usize = 0;
    proof {
        assert(units@.skip(0) == units@);
        assert(units@.take(0) == Seq::<u16>::empty());
        assert(Seq::<u16>::empty() + until_nul(units@) == until_nul(units@));
    }
    while i < units.len() && units[i] != 0
        invariant
            i <= units.len(),
            head@ == units@.take(i as int),
            until_nul(units@) == head@ + until_nul(units@.skip(i as int)),
        decreases units.len() - i,
    {
        proof {
            let rest = units@.skip(i as int);
            assert(rest[0] == units@[i as int]);
            assert(rest.drop_first() == units@.skip(i + 1));
            assert(units@.take(i + 1) == head@.push(units@[i as int]));
            assert(head@.push(units@[i as int]) + until_nul(units@.skip(i + 1)) =~= head@ + (
            seq![rest[0]] + until_nul(rest.drop_first())));
        }
        head.push(units[i]);
        i += 1;
    }
    proof {
        let rest = units@.skip(i as int);
        if i < units.len() {
            assert(rest[0] == units@[i as int]);
        }
        assert(until_nul(rest) == Seq::<u16>::empty());
        assert(head@ + Seq::<u16>::empty() == head@);
    }
    head
}

/// Converts the arguments that the service manager hands to a service into
/// strings. Each argument is read up to its first zero and decoded lossily.
pub fn convert_args(argv: &Vec<Vec<u16>>) -> (args: Vec<String>)
    ensures
        args@.len() == argv@.len(),
        forall|i: int| 0 <= i < argv@.len() ==> (#[trigger] args@[i])@ == lossy_text(
            until_nul(argv@[i]@),
        ),
{
    let mut args: Vec<String> = Vec::new();
    let mut i: usize = 0;
    while i < argv.len()
        invariant
            i <= argv.len(),
            args@.len() == i,
            forall|j: int| 0 <= j < i ==> (#[trigger] args@[j])@ == lossy_text(until_nul(argv@[j]@)),
        decreases argv.len() - i,
    {
        let head = truncate_at_nul(&argv[i]);
        args.push(decode_lossy(&head));
        i += 1;
    }
    args
}

/// Joins the arguments with one space between neighbours.
pub fn join_arguments(arguments: &Vec<String>) -> (line: String)
    ensures
        line@ == joined(arguments@),
{
    let mut line = String::new();
    let mut i: usize = 0;
    assert(arguments@.take(0) == Seq::<String>::empty());
    while i < arguments.len()
        invariant
            i <= arguments.len(),
            line@ == joined(arguments@.take(i as int)),
        decreases arguments.len() - i,
    {
        proof {
            reveal_strlit(" ");
            let next = arguments@.take(i + 1);
            assert(next.drop_last() == arguments@.take(i as int));
            assert(next.last() == arguments@[i as int]);
            assert(" "@ =~= seq![' ']);
            if i == 0 {
                assert(next[0] == arguments@[0]);
                assert(Seq::<char>::empty() + arguments@[0]@ == arguments@[0]@);
            }
        }
        if i > 0 {
            line.append(" ");
        }
        line.append(arguments[i].as_str());
        i += 1;
    }
    assert(arguments@.take(arguments@.len() as int) == arguments@);
    line
}

} // verus!
