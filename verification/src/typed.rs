//! Reading a number typed into a control.
//!
//! Each continuous control shows its value as a number followed by its own
//! format and unit: a width as `150% x`, a frequency as `200 Hz`, the output
//! trim as `+1.5 dB`. A typed value may be written the same way or as a bare
//! number; the reader picks out the number's text, which the caller parses.
//! A width is read in percent, like it is shown; a width typed with its unit
//! but without a percent sign (`1.5 x`) is refused rather than guessed at.

use vstd::prelude::*;
use crate::param_id::ParamId;
use crate::text::{
    chars_of,
    ends_with,
    strip_char_back,
    strip_end_char,
    strip_suffix_back,
    strip_suffix_once,
    text_slice,
    trim,
    trim_end,
    trim_range,
    white_space,
    lemma_trim_shape,
    trim_start,
};

verus! {

/// How a continuous control shows its value.
#[derive(Clone, Copy, Debug, PartialEq, Eq, Structural)]
pub enum UnitKind {
    /// A width: percent, then the unit ` x`.
    Percent,
    /// A frequency: the unit ` Hz`.
    Hertz,
    /// A level: the unit ` dB`.
    Decibel,
}

/// The unit a control shows after its value (with its leading space).
pub open spec fn spec_unit_text(k: UnitKind) -> Seq<char> {
    match k {
        UnitKind::Percent => " x"@,
        UnitKind::Hertz => " Hz"@,
        UnitKind::Decibel => " dB"@,
    }
}

/// What a control shows between the number and the unit.
pub open spec fn spec_format_suffix(k: UnitKind) -> Seq<char> {
    match k {
        UnitKind::Percent => "%"@,
        UnitKind::Hertz => Seq::empty(),
        UnitKind::Decibel => Seq::empty(),
    }
}

/// The unit's word, as a reader finds it at the end of typed text.
pub open spec fn spec_unit_word(k: UnitKind) -> Seq<char> {
    match k {
        UnitKind::Percent => "x"@,
        UnitKind::Hertz => "Hz"@,
        UnitKind::Decibel => "dB"@,
    }
}

/// The text a control shows for a value whose number reads `number`.
pub open spec fn displayed(k: UnitKind, number: Seq<char>) -> Seq<char> {
    number + spec_format_suffix(k) + spec_unit_text(k)
}

/// The number's text in typed text `typed`: surrounding white space, one
/// trailing unit word and, for a width, trailing percent signs are dropped.
/// A width typed with its unit word must show the percent sign before it;
/// otherwise there is no number.
pub open spec fn spec_number_text(k: UnitKind, typed: Seq<char>) -> Option<Seq<char>> {
    let whole = trim(typed);
    let word = spec_unit_word(k);
    let t = trim(strip_suffix_once(whole, word));
    match k {
        UnitKind::Percent => if ends_with(whole, word) && !(t.len() > 0 && t.last() == '%') {
            None
        } else {
            Some(trim(strip_end_char(t, '%')))
        },
        _ => Some(t),
    }
}

/// The kind of display each continuous parameter has; the switches have none.
pub open spec fn spec_unit_kind(p: ParamId) -> Option<UnitKind> {
    match p {
        ParamId::Width | ParamId::WidthLow | ParamId::WidthMid | ParamId::WidthHigh => Some(
            UnitKind::Percent,
        ),
        ParamId::XoverLoHz | ParamId::XoverHiHz | ParamId::MonoBassHz => Some(UnitKind::Hertz),
        ParamId::OutputGainDb => Some(UnitKind::Decibel),
        ParamId::MonoBassOn | ParamId::Bypass => None,
    }
}

impl ParamId {
    /// How this parameter shows its value, if it is a continuous one.
    pub fn unit_kind(&self) -> (k: Option<UnitKind>)
        ensures
            k == spec_unit_kind(*self),
    {
        match self {
            ParamId::Width | ParamId::WidthLow | ParamId::WidthMid | ParamId::WidthHigh => Some(
                UnitKind::Percent,
            ),
            ParamId::XoverLoHz | ParamId::XoverHiHz | ParamId::MonoBassHz => Some(
                UnitKind::Hertz,
            ),
            ParamId::OutputGainDb => Some(UnitKind::Decibel),
            ParamId::MonoBassOn | ParamId::Bypass => None,
        }
    }
}

impl UnitKind {
    /// The unit shown after the value.
    pub fn unit_text(&self) -> (t: &'static str)
        ensures
            t@ == spec_unit_text(*self),
    {
        match self {
            UnitKind::Percent => " x",
            UnitKind::Hertz => " Hz",
            UnitKind::Decibel => " dB",
        }
    }

    /// What is shown between the number and the unit.
    pub fn format_suffix(&self) -> (t: &'static str)
        ensures
            t@ == spec_format_suffix(*self),
    {
        proof {
            reveal_strlit("");
        }
        match self {
            UnitKind::Percent => "%",
            UnitKind::Hertz => "",
            UnitKind::Decibel => "",
        }
    }

    /// The unit's word as a reader finds it.
    fn unit_word(&self) -> (t: &'static str)
        ensures
            t@ == spec_unit_word(*self),
    {
        match self {
            UnitKind::Percent => "x",
            UnitKind::Hertz => "Hz",
            UnitKind::Decibel => "dB",
        }
    }

    /// Whether values are typed in percent (and so are a hundred times the
    /// plain value).
    pub fn in_percent(&self) -> (b: bool)
        ensures
            b == (*self == UnitKind::Percent),
    {
        match self {
            UnitKind::Percent => true,
            _ => false,
        }
    }
}

/// The number's text in what was typed into a control of kind `k`, if the
/// text can hold one.
pub fn number_text(k: UnitKind, typed: &str) -> (t: Option<String>)
    ensures
        match t {
            Some(s) => spec_number_text(k, typed@) == Some(s@),
            None => spec_number_text(k, typed@) is None,
        },
{
    let v = chars_of(typed);
    let word = chars_of(k.unit_word());
    proof {
        reveal_strlit("x");
        reveal_strlit("Hz");
        reveal_strlit("dB");
        assert(v@.subrange(0, v@.len() as int) =~= v@);
    }
    let (a, end) = trim_range(&v, 0, v.len());
    let b = strip_suffix_back(&v, a, end, &word);
    let had_unit = b < end;
    proof {
        let whole = v@.subrange(a as int, end as int);
        assert(v@.subrange(a as int, b as int).len() == b - a);
        assert(had_unit == ends_with(whole, word@));
    }
    let (a, b) = trim_range(&v, a, b);
    if k.in_percent() {
        if had_unit && !(a < b && v[b - 1] == '%') {
            return None;
        }
        let b = strip_char_back(&v, a, b, '%');
        let (a, b) = trim_range(&v, a, b);
        Some(text_slice(typed, a, b))
    } else {
        Some(text_slice(typed, a, b))
    }
}

/// A character a shown number is made of.
pub open spec fn number_char(c: char) -> bool {
    ('0' <= c && c <= '9') || c == '+' || c == '-' || c == '.'
}

/// A number's text as a control shows it: digits, signs and points.
pub open spec fn number_like(s: Seq<char>) -> bool {
    &&& s.len() > 0
    &&& forall|i: int| 0 <= i < s.len() ==> number_char(#[trigger] s[i])
}

proof fn lemma_trim_keeps(s: Seq<char>)
    requires
        s.len() > 0,
        !white_space(s[0]),
        !white_space(s.last()),
    ensures
        trim(s) == s,
{
}

proof fn lemma_trim_end_space(s: Seq<char>)
    ensures
        trim_end(s + seq![' ']) == trim_end(s),
{
    assert((s + seq![' ']).drop_last() =~= s);
}

/// A displayed value survives being typed back in, and a bare number is
/// taken as it is: for a number text made of digits, signs and points, the
/// reader gives back exactly that text from the shown text, from the shown
/// text without its unit (a width shown as `150%`), and from the number
/// alone.
pub proof fn lemma_displayed_value_reads_back(k: UnitKind, number: Seq<char>)
    requires
        number_like(number),
    ensures
        spec_number_text(k, displayed(k, number)) == Some(number),
        spec_number_text(k, number + spec_format_suffix(k)) == Some(number),
        spec_number_text(k, number) == Some(number),
{
    reveal_strlit(" x");
    reveal_strlit(" Hz");
    reveal_strlit(" dB");
    reveal_strlit("x");
    reveal_strlit("Hz");
    reveal_strlit("dB");
    reveal_strlit("%");
    reveal_strlit("");
    let n = number.len() as int;
    assert(number_char(number[0]));
    assert(number_char(number[n - 1]));
    assert(number.last() == number[n - 1]);
    let word = spec_unit_word(k);
    let w = word.len() as int;
    // A bare number carries no unit word: its last character is no letter.
    lemma_trim_keeps(number);
    if ends_with(number, word) {
        assert(number.subrange(n - w, n)[w - 1] == word[w - 1]);
        assert(false);
    }
    assert(strip_suffix_once(number, word) == number);
    if k == UnitKind::Percent {
        assert(strip_end_char(number, '%') == number);
    }
    // The shown text: number, format suffix, unit.
    let shown = displayed(k, number);
    let body = number + spec_format_suffix(k);
    assert(shown =~= body + seq![' '] + word);
    assert(body.len() > 0 && body[0] == number[0]);
    assert(!white_space(shown.last()));
    lemma_trim_keeps(shown);
    assert(shown.subrange(shown.len() - w, shown.len() as int) =~= word);
    assert(shown.subrange(0, shown.len() - w) =~= body + seq![' ']);
    lemma_trim_end_space(body);
    if k == UnitKind::Percent {
        assert(body.last() == '%');
        assert(!white_space(body.last()));
        lemma_trim_keeps(body);
        assert(body.drop_last() =~= number);
        assert(strip_end_char(body, '%') == strip_end_char(number, '%'));
        // Shown without its unit: the percent sign is no unit word.
        if ends_with(body, word) {
            assert(body.subrange(body.len() - w, body.len() as int)[w - 1] == word[w - 1]);
            assert(false);
        }
        assert(strip_suffix_once(body, word) == body);
    } else {
        assert(body =~= number);
    }
}

/// A width typed with its unit but no percent sign is refused: the reader
/// will not guess whether `1.5 x` means 1.5 or 1.5 percent.
pub proof fn lemma_width_unit_without_percent_refused(number: Seq<char>)
    requires
        number_like(number),
    ensures
        spec_number_text(UnitKind::Percent, number + spec_unit_text(UnitKind::Percent)) is None,
{
    reveal_strlit(" x");
    reveal_strlit("x");
    let n = number.len() as int;
    assert(number_char(number[0]));
    assert(number_char(number[n - 1]));
    assert(number.last() == number[n - 1]);
    let word = spec_unit_word(UnitKind::Percent);
    let typed = number + spec_unit_text(UnitKind::Percent);
    assert(typed =~= number + seq![' '] + word);
    assert(!white_space(typed.last()));
    lemma_trim_keeps(typed);
    assert(typed.subrange(typed.len() - 1, typed.len() as int) =~= word);
    assert(typed.subrange(0, typed.len() - 1) =~= number + seq![' ']);
    lemma_trim_end_space(number);
    lemma_trim_keeps(number);
    assert(number.last() != '%');
}

/// The number text the reader hands on never starts or ends with white
/// space, so a parse never sees padding.
pub proof fn lemma_number_text_is_trimmed(k: UnitKind, typed: Seq<char>)
    ensures
        spec_number_text(k, typed) matches Some(t) ==> (t.len() > 0 ==> !white_space(t[0])
            && !white_space(t.last())),
{
    let whole = trim(typed);
    let word = spec_unit_word(k);
    let t = trim(strip_suffix_once(whole, word));
    lemma_trim_shape(strip_suffix_once(whole, word));
    lemma_trim_shape(strip_end_char(t, '%'));
}

/// Padding between the number and its format is dropped too: `150 %`
/// reads as `150`, and `200 ` as `200`.
pub proof fn lemma_spaced_format_reads_back(k: UnitKind, number: Seq<char>)
    requires
        number_like(number),
    ensures
        spec_number_text(k, number + seq![' '] + spec_format_suffix(k)) == Some(number),
{
    reveal_strlit("x");
    reveal_strlit("Hz");
    reveal_strlit("dB");
    reveal_strlit("%");
    reveal_strlit("");
    let n = number.len() as int;
    assert(number_char(number[0]));
    assert(number_char(number[n - 1]));
    assert(number.last() == number[n - 1]);
    lemma_trim_keeps(number);
    let word = spec_unit_word(k);
    let w = word.len() as int;
    let typed = number + seq![' '] + spec_format_suffix(k);
    if k == UnitKind::Percent {
        assert(typed.last() == '%');
        assert(typed[0] == number[0]);
        lemma_trim_keeps(typed);
        if ends_with(typed, word) {
            assert(typed.subrange(typed.len() - w, typed.len() as int)[w - 1] == word[w - 1]);
            assert(false);
        }
        assert(strip_suffix_once(typed, word) == typed);
        assert(typed.drop_last() =~= number + seq![' ']);
        assert(strip_end_char(number, '%') == number);
        assert(strip_end_char(typed, '%') == strip_end_char(number + seq![' '], '%'));
        assert(strip_end_char(number + seq![' '], '%') == number + seq![' ']);
        lemma_trim_end_space(number);
        assert(trim_start(number + seq![' ']) == number + seq![' ']);
    } else {
        assert(typed =~= number + seq![' ']);
        lemma_trim_end_space(number);
        assert(trim_start(number + seq![' ']) == number + seq![' ']);
        assert(trim(typed) == number);
        if ends_with(number, word) {
            assert(number.subrange(n - w, n)[w - 1] == word[w - 1]);
            assert(false);
        }
        assert(strip_suffix_once(number, word) == number);
    }
}

/// How each control shows its value: the widths in percent with the unit
/// ` x`, the crossovers and the mono-bass frequency in ` Hz`, the output
/// trim in ` dB`; the two switches have no number display.
pub proof fn lemma_display_table()
    ensures
        spec_unit_kind(ParamId::Width) == Some(UnitKind::Percent),
        spec_unit_kind(ParamId::WidthLow) == Some(UnitKind::Percent),
        spec_unit_kind(ParamId::WidthMid) == Some(UnitKind::Percent),
        spec_unit_kind(ParamId::WidthHigh) == Some(UnitKind::Percent),
        spec_unit_kind(ParamId::XoverLoHz) == Some(UnitKind::Hertz),
        spec_unit_kind(ParamId::XoverHiHz) == Some(UnitKind::Hertz),
        spec_unit_kind(ParamId::MonoBassHz) == Some(UnitKind::Hertz),
        spec_unit_kind(ParamId::OutputGainDb) == Some(UnitKind::Decibel),
        spec_unit_kind(ParamId::MonoBassOn) is None,
        spec_unit_kind(ParamId::Bypass) is None,
        spec_unit_text(UnitKind::Percent) == seq![' ', 'x'],
        spec_unit_text(UnitKind::Hertz) == seq![' ', 'H', 'z'],
        spec_unit_text(UnitKind::Decibel) == seq![' ', 'd', 'B'],
        spec_format_suffix(UnitKind::Percent) == seq!['%'],
        spec_format_suffix(UnitKind::Hertz).len() == 0,
        spec_format_suffix(UnitKind::Decibel).len() == 0,
{
    reveal_strlit(" x");
    reveal_strlit(" Hz");
    reveal_strlit(" dB");
    reveal_strlit("%");
    assert(" x"@ =~= seq![' ', 'x']);
    assert(" Hz"@ =~= seq![' ', 'H', 'z']);
    assert(" dB"@ =~= seq![' ', 'd', 'B']);
    assert("%"@ =~= seq!['%']);
}

} // verus!
