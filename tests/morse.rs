use morse_led::command::{command_of_trimmed, parse_command, Command};
use morse_led::signal::{MorseCode, Step, DEFAULT_UNIT_DELAY_MS, LETTER_GAP_UNITS};
use morse_led::table::{pattern_of, to_ascii_upper, Symbol};

fn dot() -> Vec<Step> {
    vec![Step::On, Step::Hold(1), Step::Off, Step::Hold(1)]
}

fn dash() -> Vec<Step> {
    vec![Step::On, Step::Hold(3), Step::Off, Step::Hold(1)]
}

fn gap() -> Vec<Step> {
    vec![Step::Hold(2)]
}

fn join(parts: Vec<Vec<Step>>) -> Vec<Step> {
    parts.into_iter().flatten().collect()
}

/// Units held while lit and while dark, starting dark.
fn timing(steps: &[Step]) -> (u64, u64) {
    let mut lit = false;
    let (mut on, mut off) = (0u64, 0u64);
    for s in steps {
        match s {
            Step::On => lit = true,
            Step::Off => lit = false,
            Step::Hold(n) => {
                if lit {
                    on += *n as u64
                } else {
                    off += *n as u64
                }
            }
        }
    }
    (on, off)
}

#[test]
fn sos_is_three_dots_three_dashes_three_dots() {
    let m = MorseCode::new(DEFAULT_UNIT_DELAY_MS);
    let expected = join(vec![
        dot(), dot(), dot(), gap(),
        dash(), dash(), dash(), gap(),
        dot(), dot(), dot(), gap(),
    ]);
    assert_eq!(m.transmit_text("SOS"), expected);
}

#[test]
fn single_a_is_dot_dash_then_gap() {
    let m = MorseCode::new(DEFAULT_UNIT_DELAY_MS);
    assert_eq!(m.transmit_text("A"), join(vec![dot(), dash(), gap()]));
    assert_eq!(m.transmit_char('A'), join(vec![dot(), dash(), gap()]));
}

#[test]
fn lowercase_is_sent_as_uppercase() {
    let m = MorseCode::new(DEFAULT_UNIT_DELAY_MS);
    assert_eq!(m.transmit_char('a'), m.transmit_char('A'));
    assert_eq!(m.transmit_text("sos"), m.transmit_text("SOS"));
    for c in 'a'..='z' {
        assert_eq!(m.transmit_char(c), m.transmit_char(c.to_ascii_uppercase()));
    }
}

#[test]
fn empty_text_has_no_steps() {
    let m = MorseCode::new(DEFAULT_UNIT_DELAY_MS);
    assert!(m.transmit_text("").is_empty());
}

#[test]
fn table_holds_letters_digits_and_space_only() {
    let mut supported = 0;
    for b in 0u8..=127 {
        let c = b as char;
        let expected = c.is_ascii_uppercase() || c.is_ascii_digit() || c == ' ';
        assert_eq!(pattern_of(c).is_some(), expected, "{:?}", c);
        if expected {
            supported += 1;
        }
    }
    assert_eq!(supported, 37);
    assert!(pattern_of('a').is_none());
    assert!(pattern_of('é').is_none());
}

#[test]
fn table_patterns() {
    assert_eq!(pattern_of('A'), Some(vec![Symbol::Dot, Symbol::Dash]));
    assert_eq!(pattern_of('Q'), Some(vec![Symbol::Dash, Symbol::Dash, Symbol::Dot, Symbol::Dash]));
    assert_eq!(pattern_of('0'), Some(vec![Symbol::Dash; 5]));
    assert_eq!(pattern_of('7'), Some(vec![Symbol::Dash, Symbol::Dash, Symbol::Dot, Symbol::Dot, Symbol::Dot]));
    assert_eq!(pattern_of(' '), Some(vec![Symbol::Gap]));
}

#[test]
fn unsupported_characters_are_skipped() {
    let m = MorseCode::new(DEFAULT_UNIT_DELAY_MS);
    for c in ['!', '.', ',', '?', '\n', 'é', 'ß'] {
        assert!(m.transmit_char(c).is_empty(), "{:?}", c);
    }
    assert_eq!(m.transmit_text("A!?E"), m.transmit_text("AE"));
}

#[test]
fn space_idles_five_units() {
    let m = MorseCode::new(DEFAULT_UNIT_DELAY_MS);
    let steps = m.transmit_char(' ');
    assert_eq!(steps, vec![Step::Hold(3), Step::Hold(LETTER_GAP_UNITS)]);
    assert_eq!(timing(&steps), (0, 5));
}

#[test]
fn letter_and_digit_timing() {
    let m = MorseCode::new(DEFAULT_UNIT_DELAY_MS);
    for c in ('A'..='Z').chain('0'..='9') {
        let p = pattern_of(c).unwrap();
        let dots = p.iter().filter(|s| **s == Symbol::Dot).count() as u64;
        let dashes = p.iter().filter(|s| **s == Symbol::Dash).count() as u64;
        let steps = m.transmit_char(c);
        assert_eq!(timing(&steps), (dots + 3 * dashes, dots + dashes + 2), "{:?}", c);
        assert_eq!(steps.last(), Some(&Step::Hold(2)));
    }
    // B is -...: lit 3 + 1 + 1 + 1, dark 4 + 2.
    assert_eq!(timing(&m.transmit_char('B')), (6, 6));
}

#[test]
fn hold_millis_scales_by_unit() {
    let m = MorseCode::new(DEFAULT_UNIT_DELAY_MS);
    assert_eq!(m.unit_delay_ms(), 200);
    assert_eq!(m.hold_millis(1), 200);
    assert_eq!(m.hold_millis(3), 600);
    assert_eq!(m.hold_millis(0), 0);
    let big = MorseCode::new(u32::MAX);
    assert_eq!(big.hold_millis(u32::MAX), (u32::MAX as u64) * (u32::MAX as u64));
}

#[test]
fn sink_bytes() {
    assert_eq!(Step::On.sink_byte(), Some(b'1'));
    assert_eq!(Step::Off.sink_byte(), Some(b'0'));
    assert_eq!(Step::Hold(3).sink_byte(), None);
}

#[test]
fn ascii_upper_maps_lowercase_letters_only() {
    assert_eq!(to_ascii_upper('a'), 'A');
    assert_eq!(to_ascii_upper('z'), 'Z');
    assert_eq!(to_ascii_upper('Q'), 'Q');
    assert_eq!(to_ascii_upper('5'), '5');
    assert_eq!(to_ascii_upper('é'), 'é');
    assert_eq!(to_ascii_upper('{'), '{');
}

#[test]
fn quit_in_either_case() {
    assert_eq!(parse_command("q"), Command::Quit);
    assert_eq!(parse_command("Q"), Command::Quit);
    assert_eq!(parse_command("  q \n"), Command::Quit);
    assert_eq!(command_of_trimmed("Q"), Command::Quit);
}

#[test]
fn other_lines_are_messages() {
    assert_eq!(parse_command("qq"), Command::Transmit("qq".to_string()));
    assert_eq!(parse_command("  hello world \n"), Command::Transmit("hello world".to_string()));
    assert_eq!(parse_command("\n"), Command::Transmit(String::new()));
    assert_eq!(command_of_trimmed("quit"), Command::Transmit("quit".to_string()));
    assert_eq!(command_of_trimmed(" q"), Command::Transmit(" q".to_string()));
}
