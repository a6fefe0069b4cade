use neoterm::keys::{keycode_to_char, Key, KeyEvent};
use neoterm::terminal::{handle_input, lookup, update_terminal, CommandAction, Control, TerminalState};
use neoterm::text::{chars_eq_str, str_chars, trim};

fn key_for(c: char) -> Key {
    match c {
        'a' => Key::KeyA,
        'b' => Key::KeyB,
        'c' => Key::KeyC,
        'd' => Key::KeyD,
        'e' => Key::KeyE,
        'f' => Key::KeyF,
        'g' => Key::KeyG,
        'h' => Key::KeyH,
        'i' => Key::KeyI,
        'j' => Key::KeyJ,
        'k' => Key::KeyK,
        'l' => Key::KeyL,
        'm' => Key::KeyM,
        'n' => Key::KeyN,
        'o' => Key::KeyO,
        'p' => Key::KeyP,
        'q' => Key::KeyQ,
        'r' => Key::KeyR,
        's' => Key::KeyS,
        't' => Key::KeyT,
        'u' => Key::KeyU,
        'v' => Key::KeyV,
        'w' => Key::KeyW,
        'x' => Key::KeyX,
        'y' => Key::KeyY,
        'z' => Key::KeyZ,
        '0' => Key::Digit0,
        '1' => Key::Digit1,
        '2' => Key::Digit2,
        '3' => Key::Digit3,
        '4' => Key::Digit4,
        '5' => Key::Digit5,
        '6' => Key::Digit6,
        '7' => Key::Digit7,
        '8' => Key::Digit8,
        '9' => Key::Digit9,
        ' ' => Key::Space,
        '.' => Key::Period,
        _ => Key::Other,
    }
}

fn presses(line: &str) -> Vec<KeyEvent> {
    line.chars()
        .map(|c| KeyEvent { key: key_for(c), pressed: true })
        .collect()
}

fn chars(s: &str) -> Vec<char> {
    s.chars().collect()
}

/// Drives a full tick: accumulate the events, then submit if asked.
fn tick(
    events: &[KeyEvent],
    erase: bool,
    submit: bool,
    state: &mut TerminalState,
    transcript: &mut Vec<char>,
    current_line: &mut Vec<char>,
) -> Control {
    let events: Vec<KeyEvent> = events.to_vec();
    handle_input(&events, erase, state, current_line);
    update_terminal(submit, state, transcript, current_line)
}

fn fresh() -> (TerminalState, Vec<char>, Vec<char>) {
    (TerminalState::default(), Vec::new(), chars("> "))
}

#[test]
fn key_table_maps_letters_digits_space_period() {
    assert_eq!(keycode_to_char(Key::KeyA), Some('a'));
    assert_eq!(keycode_to_char(Key::KeyM), Some('m'));
    assert_eq!(keycode_to_char(Key::KeyZ), Some('z'));
    assert_eq!(keycode_to_char(Key::Digit0), Some('0'));
    assert_eq!(keycode_to_char(Key::Digit9), Some('9'));
    assert_eq!(keycode_to_char(Key::Space), Some(' '));
    assert_eq!(keycode_to_char(Key::Period), Some('.'));
    assert_eq!(keycode_to_char(Key::Backspace), None);
    assert_eq!(keycode_to_char(Key::Enter), None);
    assert_eq!(keycode_to_char(Key::Other), None);
}

#[test]
fn accumulation_keeps_arrival_order_and_mirror() {
    let (mut state, _transcript, mut line) = fresh();
    handle_input(&presses("exploit"), false, &mut state, &mut line);
    assert_eq!(state.input, chars("exploit"));
    assert_eq!(line, chars("> exploit"));
}

#[test]
fn releases_and_unmapped_keys_are_ignored() {
    let (mut state, _transcript, mut line) = fresh();
    let events = vec![
        KeyEvent { key: Key::KeyA, pressed: true },
        KeyEvent { key: Key::KeyB, pressed: false },
        KeyEvent { key: Key::Other, pressed: true },
        KeyEvent { key: Key::Enter, pressed: true },
        KeyEvent { key: Key::Backspace, pressed: true },
        KeyEvent { key: Key::KeyC, pressed: true },
    ];
    handle_input(&events, false, &mut state, &mut line);
    assert_eq!(state.input, chars("ac"));
    assert_eq!(line, chars("> ac"));
}

#[test]
fn erase_removes_last_character() {
    let (mut state, _transcript, mut line) = fresh();
    handle_input(&presses("abcde"), false, &mut state, &mut line);
    handle_input(&Vec::new(), true, &mut state, &mut line);
    handle_input(&Vec::new(), true, &mut state, &mut line);
    assert_eq!(state.input, chars("abc"));
    assert_eq!(line, chars("> abc"));
}

#[test]
fn erase_applies_after_same_tick_insertions() {
    let (mut state, _transcript, mut line) = fresh();
    handle_input(&presses("ab"), true, &mut state, &mut line);
    assert_eq!(state.input, chars("a"));
    assert_eq!(line, chars("> a"));
}

#[test]
fn erase_on_empty_buffer_is_a_noop() {
    let (mut state, _transcript, mut line) = fresh();
    handle_input(&Vec::new(), true, &mut state, &mut line);
    assert_eq!(state.input, chars(""));
    assert_eq!(line, chars("> "));
}

#[test]
fn submit_with_empty_buffer_is_a_noop() {
    let (mut state, mut transcript, mut line) = fresh();
    let ctl = update_terminal(true, &mut state, &mut transcript, &mut line);
    assert_eq!(ctl, Control::Continue);
    assert_eq!(transcript, chars(""));
    assert_eq!(line, chars("> "));
    assert_eq!(state.input, chars(""));
}

#[test]
fn no_submit_key_changes_nothing() {
    let (mut state, mut transcript, mut line) = fresh();
    handle_input(&presses("cloak"), false, &mut state, &mut line);
    let ctl = update_terminal(false, &mut state, &mut transcript, &mut line);
    assert_eq!(ctl, Control::Continue);
    assert_eq!(transcript, chars(""));
    assert_eq!(line, chars("> cloak"));
    assert_eq!(state.input, chars("cloak"));
}

#[test]
fn round_trip_exploit() {
    let (mut state, mut transcript, mut line) = fresh();
    let ctl = tick(&presses("exploit"), false, true, &mut state, &mut transcript, &mut line);
    assert_eq!(ctl, Control::Continue);
    assert_eq!(transcript, chars("> Firewall breached\n"));
    assert_eq!(state.input, chars(""));
    assert_eq!(line, chars("> "));
}

#[test]
fn unknown_command_gets_default_response() {
    let (mut state, mut transcript, mut line) = fresh();
    let ctl = tick(&presses("foo"), false, true, &mut state, &mut transcript, &mut line);
    assert_eq!(ctl, Control::Continue);
    assert_eq!(
        transcript,
        chars("> Unknown command: foo. Type 'help' for options.\n")
    );
}

#[test]
fn whitespace_is_trimmed_before_lookup() {
    let (mut state, mut transcript, mut line) = fresh();
    let ctl = tick(&presses("  exploit  "), false, true, &mut state, &mut transcript, &mut line);
    assert_eq!(ctl, Control::Continue);
    assert_eq!(transcript, chars("> Firewall breached\n"));
}

#[test]
fn exit_terminates_before_any_mutation() {
    let (mut state, mut transcript, mut line) = fresh();
    handle_input(&presses("exit"), false, &mut state, &mut line);
    let ctl = update_terminal(true, &mut state, &mut transcript, &mut line);
    assert_eq!(ctl, Control::Terminate);
    assert_eq!(transcript, chars(""));
    assert_eq!(line, chars("> exit"));
    assert_eq!(state.input, chars("exit"));
}

#[test]
fn every_table_entry_answers_exactly() {
    let cases = [
        ("nmap neotechlabs.com", "> Scanning NeoTech Labs...\n> Port 80: HTTP (vulnerable)\n"),
        ("ssh neotechlabs.com", "> Connected—auth required\n"),
        ("exploit", "> Firewall breached\n"),
        ("wget data", "> 500MB downloaded—trace active!\n"),
        ("cloak", "> Trace evaded\n"),
    ];
    for (command, expected) in cases {
        let (mut state, mut transcript, mut line) = fresh();
        let ctl = tick(&presses(command), false, true, &mut state, &mut transcript, &mut line);
        assert_eq!(ctl, Control::Continue);
        assert_eq!(transcript, chars(expected));
    }
}

#[test]
fn transcript_grows_across_submissions() {
    let (mut state, mut transcript, mut line) = fresh();
    tick(&presses("cloak"), false, true, &mut state, &mut transcript, &mut line);
    tick(&presses("foo"), false, true, &mut state, &mut transcript, &mut line);
    assert_eq!(
        transcript,
        chars("> Trace evaded\n> Unknown command: foo. Type 'help' for options.\n")
    );
}

#[test]
fn lookup_resolves_terminating_and_plain_entries() {
    match lookup(&chars("exit")) {
        CommandAction::Terminate => {}
        CommandAction::Respond(_) => panic!("exit must terminate"),
    }
    match lookup(&chars("cloak")) {
        CommandAction::Respond(r) => assert_eq!(r, chars("> Trace evaded")),
        CommandAction::Terminate => panic!("cloak must respond"),
    }
    match lookup(&chars("help")) {
        CommandAction::Respond(r) => {
            assert_eq!(r, chars("> Unknown command: help. Type 'help' for options."))
        }
        CommandAction::Terminate => panic!("help must respond"),
    }
}

#[test]
fn trim_strips_leading_and_trailing_whitespace() {
    assert_eq!(trim(&chars("  exploit  ")), chars("exploit"));
    assert_eq!(trim(&chars("wget data")), chars("wget data"));
    assert_eq!(trim(&chars("   ")), chars(""));
    assert_eq!(trim(&chars("")), chars(""));
    assert_eq!(trim(&chars(" a b ")), chars("a b"));
}

#[test]
fn chars_eq_str_compares_exactly() {
    assert!(chars_eq_str(&chars("exit"), "exit"));
    assert!(!chars_eq_str(&chars("exit "), "exit"));
    assert!(!chars_eq_str(&chars("exi"), "exit"));
    assert!(!chars_eq_str(&chars("Exit"), "exit"));
}

#[test]
fn str_chars_round_trips() {
    assert_eq!(str_chars("> Connected—auth required"), chars("> Connected—auth required"));
    assert_eq!(str_chars(""), chars(""));
}
