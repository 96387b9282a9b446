//! How long the sink is lit and dark over a plan of steps.
use vstd::prelude::*;

use crate::signal::{char_steps, pattern_steps, symbol_steps, Step, LETTER_GAP_UNITS};
use crate::table::{ascii_upper, pattern, Symbol};

verus! {

/// Units held while the sink is in state `on`, over `steps` run from state `lit`.
pub open spec fn held(steps: Seq<Step>, lit: bool, on: bool) -> nat
    decreases steps.len(),
{
    if steps.len() == 0 {
        0
    } else {
        match steps[0] {
            Step::On => held(steps.drop_first(), true, on),
            Step::Off => held(steps.drop_first(), false, on),
            Step::Hold(n) => (if lit == on { n as nat } else { 0 }) + held(
                steps.drop_first(),
                lit,
                on,
            ),
        }
    }
}

/// The sink's state after `steps` run from state `lit`.
pub open spec fn ends_lit(steps: Seq<Step>, lit: bool) -> bool
    decreases steps.len(),
{
    if steps.len() == 0 {
        lit
    } else {
        match steps[0] {
            Step::On => ends_lit(steps.drop_first(), true),
            Step::Off => ends_lit(steps.drop_first(), false),
            Step::Hold(_) => ends_lit(steps.drop_first(), lit),
        }
    }
}

/// Units lit by a symbol: one for a dot, three for a dash, none for a gap.
pub open spec fn symbol_on_units(s: Symbol) -> nat {
    match s {
        Symbol::Dot => 1,
        Symbol::Dash => 3,
        Symbol::Gap => 0,
    }
}

/// Units dark in a symbol: one after a dot or a dash, three for a gap.
pub open spec fn symbol_off_units(s: Symbol) -> nat {
    match s {
        Symbol::Dot => 1,
        Symbol::Dash => 1,
        Symbol::Gap => 3,
    }
}

/// Units lit over a pattern.
pub open spec fn on_units(p: Seq<Symbol>) -> nat
    decreases p.len(),
{
    if p.len() == 0 {
        0
    } else {
        on_units(p.drop_last()) + symbol_on_units(p.last())
    }
}

/// Units dark over a pattern.
pub open spec fn off_units(p: Seq<Symbol>) -> nat
    decreases p.len(),
{
    if p.len() == 0 {
        0
    } else {
        off_units(p.drop_last()) + symbol_off_units(p.last())
    }
}

/// Holding over two plans run one after the other adds up.
pub proof fn lemma_held_concat(a: Seq<Step>, b: Seq<Step>, lit: bool, on: bool)
    ensures
        held(a + b, lit, on) == held(a, lit, on) + held(b, ends_lit(a, lit), on),
        ends_lit(a + b, lit) == ends_lit(b, ends_lit(a, lit)),
    decreases a.len(),
{
    if a.len() > 0 {
        assert((a + b).drop_first() == a.drop_first() + b);
        let next = match a[0] {
            Step::On => true,
            Step::Off => false,
            Step::Hold(_) => lit,
        };
        lemma_held_concat(a.drop_first(), b, next, on);
    } else {
        assert(a + b == b);
    }
}

/// A pattern run from dark lights the sink for its on-units, keeps it dark
/// for its off-units, and leaves it dark.
pub proof fn lemma_pattern_timing(p: Seq<Symbol>)
    ensures
        held(pattern_steps(p), false, true) == on_units(p),
        held(pattern_steps(p), false, false) == off_units(p),
        !ends_lit(pattern_steps(p), false),
    decreases p.len(),
{
    if p.len() > 0 {
        lemma_pattern_timing(p.drop_last());
        let a = pattern_steps(p.drop_last());
        let b = symbol_steps(p.last());
        lemma_held_concat(a, b, false, true);
        lemma_held_concat(a, b, false, false);
        reveal_with_fuel(held, 5);
        reveal_with_fuel(ends_lit, 5);
    }
}

/// Every supported character is sent with each dot lit for one unit and each
/// dash for three, one dark unit after each of them, and a closing dark gap of
/// two units; the sink is left dark.
pub proof fn lemma_char_timing(c: char)
    requires
        pattern(ascii_upper(c)) is Some,
    ensures
        held(char_steps(c), false, true) == on_units(pattern(ascii_upper(c))->0),
        held(char_steps(c), false, false) == off_units(pattern(ascii_upper(c))->0)
            + LETTER_GAP_UNITS,
        !ends_lit(char_steps(c), false),
{
    let p = pattern(ascii_upper(c))->0;
    let a = pattern_steps(p);
    let b = seq![Step::Hold(LETTER_GAP_UNITS)];
    lemma_pattern_timing(p);
    lemma_held_concat(a, b, false, true);
    lemma_held_concat(a, b, false, false);
    reveal_with_fuel(held, 2);
    reveal_with_fuel(ends_lit, 2);
}

} // verus!
