//! The timed signal plan: the on/off writes and idle holds that transmit text.
use vstd::prelude::*;

use crate::table::{
    ascii_upper, is_supported, lemma_ascii_upper_idempotent, lemma_table_domain, pattern,
    pattern_of, to_ascii_upper, Symbol,
};

verus! {

/// The unit delay used when none is chosen, in milliseconds.
pub const DEFAULT_UNIT_DELAY_MS: u32 = 200;

/// Idle units that close every transmitted character.
pub const LETTER_GAP_UNITS: u32 = 2;

/// One step of the signal plan.
#[derive(Clone, Copy, Debug, PartialEq, Eq, Structural)]
pub enum Step {
    /// Switch the sink on.
    On,
    /// Switch the sink off.
    Off,
    /// Keep the sink as it is for this many units.
    Hold(u32),
}

/// The steps of one pattern symbol.
pub open spec fn symbol_steps(s: Symbol) -> Seq<Step> {
    match s {
        Symbol::Dot => seq![Step::On, Step::Hold(1), Step::Off, Step::Hold(1)],
        Symbol::Dash => seq![Step::On, Step::Hold(3), Step::Off, Step::Hold(1)],
        Symbol::Gap => seq![Step::Hold(3)],
    }
}

/// The steps of a whole pattern, symbol after symbol.
pub open spec fn pattern_steps(p: Seq<Symbol>) -> Seq<Step>
    decreases p.len(),
{
    if p.len() == 0 {
        seq![]
    } else {
        pattern_steps(p.drop_last()) + symbol_steps(p.last())
    }
}

/// The steps that transmit one character: its pattern, looked up in uppercase,
/// then the closing letter gap; nothing at all for a character without a pattern.
pub open spec fn char_steps(c: char) -> Seq<Step> {
    match pattern(ascii_upper(c)) {
        Some(p) => pattern_steps(p) + seq![Step::Hold(LETTER_GAP_UNITS)],
        None => seq![],
    }
}

/// The steps that transmit a text: those of each character, in order.
pub open spec fn text_steps(t: Seq<char>) -> Seq<Step>
    decreases t.len(),
{
    if t.len() == 0 {
        seq![]
    } else {
        text_steps(t.drop_last()) + char_steps(t.last())
    }
}

/// A character and its uppercase form are transmitted alike.
pub proof fn lemma_case_insensitive(c: char)
    ensures
        char_steps(c) == char_steps(ascii_upper(c)),
{
    lemma_ascii_upper_idempotent(c);
}

/// A character outside the table, in uppercase, is transmitted as nothing at all.
pub proof fn lemma_unsupported_is_silent(c: char)
    requires
        !is_supported(ascii_upper(c)),
    ensures
        char_steps(c) == Seq::<Step>::empty(),
{
    lemma_table_domain(ascii_upper(c));
}

/// The empty text is transmitted as no step at all, so nothing reaches the sink.
pub proof fn lemma_empty_text_is_silent()
    ensures
        text_steps(Seq::empty()) == Seq::<Step>::empty(),
{
}

impl Step {
    /// The byte that the sink takes for a switch: `1` for on, `0` for off;
    /// `None` for a hold, which writes nothing.
    pub fn sink_byte(&self) -> (r: Option<u8>)
        ensures
            r == match *self {
                Step::On => Some('1' as u8),
                Step::Off => Some('0' as u8),
                Step::Hold(_) => None::<u8>,
            },
    {
        match self {
            Step::On => Some('1' as u8),
            Step::Off => Some('0' as u8),
            Step::Hold(_) => None,
        }
    }
}

/// The encoder: plans the signal for text, at a unit delay fixed when it is made.
pub struct MorseCode {
    unit_delay_ms: u32,
}

impl MorseCode {
    /// The unit delay, in milliseconds.
    pub closed spec fn spec_unit_delay_ms(&self) -> u32 {
        self.unit_delay_ms
    }

    pub fn new(unit_delay_ms: u32) -> (r: MorseCode)
        ensures
            r.spec_unit_delay_ms() == unit_delay_ms,
    {
        MorseCode { unit_delay_ms }
    }

    pub fn unit_delay_ms(&self) -> (r: u32)
        ensures
            r == self.spec_unit_delay_ms(),
    {
        self.unit_delay_ms
    }

    /// How long a hold of `units` lasts, in milliseconds.
    pub fn hold_millis(&self, units: u32) -> (r: u64)
        ensures
            r == units * self.spec_unit_delay_ms(),
    {
        let u = units as u64;
        let d = self.unit_delay_ms as u64;
        assert(u * d <= u32::MAX * u32::MAX) by (nonlinear_arith)
            requires
                u <= u32::MAX,
                d <= u32::MAX,
        ;
        u * d
    }

    /// Appends a dot: on for one unit, then off for one unit.
    pub fn dot(&self, out: &mut Vec<Step>)
        ensures
            final(out)@ == old(out)@ + symbol_steps(Symbol::Dot),
    {
        out.push(Step::On);
        out.push(Step::Hold(1));
        out.push(Step::Off);
        out.push(Step::Hold(1));
    }

    /// Appends a dash: on for three units, then off for one unit.
    pub fn dash(&self, out: &mut Vec<Step>)
        ensures
            final(out)@ == old(out)@ + symbol_steps(Symbol::Dash),
    {
        out.push(Step::On);
        out.push(Step::Hold(3));
        out.push(Step::Off);
        out.push(Step::Hold(1));
    }

    /// Appends the steps of one symbol.
    fn symbol(&self, s: Symbol, out: &mut Vec<Step>)
        ensures
            final(out)@ == old(out)@ + symbol_steps(s),
    {
        match s {
            Symbol::Dot => self.dot(out),
            Symbol::Dash => self.dash(out),
            Symbol::Gap => {
                out.push(Step::Hold(3));
            },
        }
    }

    /// The steps that transmit `c`: nothing for a character without a pattern.
    pub fn transmit_char(&self, c: char) -> (r: Vec<Step>)
        ensures
            r@ == char_steps(c),
    {
        let mut out: Vec<Step> = Vec::new();
        match pattern_of(to_ascii_upper(c)) {
            Some(p) => {
                for i in 0..p.len()
                    invariant
                        pattern(ascii_upper(c)) == Some(p@),
                        out@ == pattern_steps(p@.subrange(0, i as int)),
                {
                    assert(p@.subrange(0, i + 1).drop_last() == p@.subrange(0, i as int));
                    self.symbol(p[i], &mut out);
                }
                assert(p@.subrange(0, p.len() as int) == p@);
                out.push(Step::Hold(LETTER_GAP_UNITS));
            },
            None => {},
        }
        out
    }

    /// The steps that transmit `text`, character after character.
    pub fn transmit_text(&self, text: &str) -> (r: Vec<Step>)
        ensures
            r@ == text_steps(text@),
    {
        let mut out: Vec<Step> = Vec::new();
        let n = text.unicode_len();
        for i in 0..n
            invariant
                n == text@.len(),
                out@ == text_steps(text@.subrange(0, i as int)),
        {
            assert(text@.subrange(0, i + 1).drop_last() == text@.subrange(0, i as int));
            let mut steps = self.transmit_char(text.get_char(i));
            out.append(&mut steps);
        }
        assert(text@.subrange(0, n as int) == text@);
        out
    }
}

} // verus!
