//! The console core: the line buffer, the per-tick input accumulator, and
//! the command processor.
//!
//! `handle_input` turns a tick's key events into edits on the line buffer,
//! keeping the visible current-line region an exact mirror of the buffer
//! behind the prompt marker. `update_terminal` resolves a submitted line
//! against the fixed command table, appends the response to the transcript,
//! and resets the buffer and current line; the one terminating command is
//! reported back to the host, which performs the actual process exit.

use vstd::prelude::*;

use crate::keys::{KeyEvent, key_char, keycode_to_char, insertable, is_insertable};
use crate::text::{trim, trim_chars, push_str_chars, push_chars, chars_eq_str, str_chars};

verus! {

/// The not-yet-submitted command text.
pub struct TerminalState {
    pub input: Vec<char>,
}

impl Default for TerminalState {
    /// A terminal starts with an empty line buffer.
    fn default() -> (s: TerminalState)
        ensures
            s.input@ == Seq::<char>::empty(),
    {
        TerminalState { input: Vec::new() }
    }
}

/// The prompt marker that prefixes the current-line region.
pub open spec fn prompt() -> Seq<char> {
    "> "@
}

/// The mirroring invariant: the current-line region shows exactly the
/// prompt marker followed by the line buffer's content.
pub open spec fn mirrors(line: Seq<char>, buf: Seq<char>) -> bool {
    line == prompt() + buf
}

/// The character a single key event types, if any: the event must be a
/// press, the key must be in the key table, and the character must be one
/// the buffer accepts.
pub open spec fn event_char(e: KeyEvent) -> Option<char> {
    if e.pressed {
        match key_char(e.key) {
            Some(c) => if insertable(c) {
                Some(c)
            } else {
                None
            },
            None => None,
        }
    } else {
        None
    }
}

/// The characters a tick's key events type, in arrival order.
pub open spec fn typed_chars(events: Seq<KeyEvent>) -> Seq<char>
    decreases events.len(),
{
    if events.len() == 0 {
        Seq::<char>::empty()
    } else {
        typed_chars(events.drop_last()) + match event_char(events.last()) {
            Some(c) => seq![c],
            None => Seq::<char>::empty(),
        }
    }
}

/// The line buffer after one tick of accumulation: the typed characters are
/// appended in arrival order, then a freshly pressed erase key removes the
/// last character of a non-empty buffer.
pub open spec fn accumulate(buf: Seq<char>, events: Seq<KeyEvent>, erase: bool) -> Seq<char> {
    let grown = buf + typed_chars(events);
    if erase && grown.len() > 0 {
        grown.drop_last()
    } else {
        grown
    }
}

/// Applies one tick of key events to the line buffer and its mirror.
///
/// Character-producing presses are appended in arrival order; afterwards a
/// freshly pressed erase key removes the last character if the buffer is
/// non-empty. Unmapped keys, releases, and erasing an empty buffer are
/// no-ops.
pub fn handle_input(
    events: &Vec<KeyEvent>,
    erase_just_pressed: bool,
    state: &mut TerminalState,
    current_line: &mut Vec<char>,
)
    requires
        mirrors(old(current_line)@, old(state).input@),
    ensures
        final(state).input@ == accumulate(old(state).input@, events@, erase_just_pressed),
        mirrors(final(current_line)@, final(state).input@),
{
    let n = events.len();
    let mut idx: usize = 0;
    while idx < n
        invariant
            0 <= idx <= n,
            n == events@.len(),
            state.input@ == old(state).input@ + typed_chars(events@.subrange(0, idx as int)),
            mirrors(current_line@, state.input@),
        decreases n - idx,
    {
        let e = events[idx];
        if e.pressed {
            if let Some(c) = keycode_to_char(e.key) {
                if is_insertable(c) {
                    state.input.push(c);
                    current_line.push(c);
                }
            }
        }
        proof {
            let p = events@.subrange(0, idx as int);
            let q = events@.subrange(0, idx + 1);
            assert(q.drop_last() =~= p);
            assert(q.last() == events@[idx as int]);
            assert(state.input@ =~= old(state).input@ + typed_chars(q));
            assert(current_line@ =~= prompt() + state.input@);
        }
        idx = idx + 1;
    }
    proof {
        assert(events@.subrange(0, n as int) =~= events@);
    }
    if erase_just_pressed && state.input.len() > 0 {
        state.input.pop();
        current_line.pop();
        proof {
            let grown = old(state).input@ + typed_chars(events@);
            assert(state.input@ =~= grown.drop_last());
            assert(current_line@ =~= prompt() + state.input@);
        }
    }
}

/// What the command table resolves a submitted line to: a response to echo
/// into the transcript, or the terminating action.
pub enum CommandAction {
    Respond(Vec<char>),
    Terminate,
}

/// Whether to keep running the host loop after a tick, or end the process
/// with success status.
#[derive(Clone, Copy, PartialEq, Eq, Structural, Debug)]
pub enum Control {
    Continue,
    Terminate,
}

/// Whether a trimmed line is the terminating command.
pub open spec fn is_terminating(cmd: Seq<char>) -> bool {
    cmd == "exit"@
}

/// The default response for a line outside the command table.
pub open spec fn unknown_response(cmd: Seq<char>) -> Seq<char> {
    "> Unknown command: "@ + cmd + ". Type 'help' for options."@
}

/// The response the command table gives for a trimmed, non-terminating
/// line: its fixed entry, or the default unknown-command line.
pub open spec fn response_for(cmd: Seq<char>) -> Seq<char> {
    if cmd == "nmap neotechlabs.com"@ {
        "> Scanning NeoTech Labs...\n> Port 80: HTTP (vulnerable)"@
    } else if cmd == "ssh neotechlabs.com"@ {
        "> Connected—auth required"@
    } else if cmd == "exploit"@ {
        "> Firewall breached"@
    } else if cmd == "wget data"@ {
        "> 500MB downloaded—trace active!"@
    } else if cmd == "cloak"@ {
        "> Trace evaded"@
    } else {
        unknown_response(cmd)
    }
}

/// Resolves a trimmed line against the fixed command table.
pub fn lookup(cmd: &Vec<char>) -> (action: CommandAction)
    ensures
        action is Terminate <==> is_terminating(cmd@),
        action matches CommandAction::Respond(r) ==> r@ == response_for(cmd@),
{
    if chars_eq_str(cmd, "exit") {
        CommandAction::Terminate
    } else if chars_eq_str(cmd, "nmap neotechlabs.com") {
        CommandAction::Respond(str_chars("> Scanning NeoTech Labs...\n> Port 80: HTTP (vulnerable)"))
    } else if chars_eq_str(cmd, "ssh neotechlabs.com") {
        CommandAction::Respond(str_chars("> Connected—auth required"))
    } else if chars_eq_str(cmd, "exploit") {
        CommandAction::Respond(str_chars("> Firewall breached"))
    } else if chars_eq_str(cmd, "wget data") {
        CommandAction::Respond(str_chars("> 500MB downloaded—trace active!"))
    } else if chars_eq_str(cmd, "cloak") {
        CommandAction::Respond(str_chars("> Trace evaded"))
    } else {
        let mut r = str_chars("> Unknown command: ");
        push_chars(&mut r, cmd);
        push_str_chars(&mut r, ". Type 'help' for options.");
        CommandAction::Respond(r)
    }
}

/// Processes a submission tick.
///
/// Nothing happens unless the submit key was freshly pressed and the line
/// buffer is non-empty. Otherwise the buffer's content is trimmed and
/// resolved: the terminating command leaves every region and the buffer
/// untouched and directs the host to end the process; any other line has
/// its response (with a trailing newline) appended to the transcript, the
/// current line reset to the bare prompt, and the buffer cleared.
pub fn update_terminal(
    submit_just_pressed: bool,
    state: &mut TerminalState,
    transcript: &mut Vec<char>,
    current_line: &mut Vec<char>,
) -> (ctl: Control)
    requires
        mirrors(old(current_line)@, old(state).input@),
    ensures
        ctl is Terminate <==> (submit_just_pressed && old(state).input@.len() > 0
            && is_terminating(trim_chars(old(state).input@))),
        (!submit_just_pressed || old(state).input@.len() == 0 || ctl is Terminate) ==> {
            &&& final(state).input@ == old(state).input@
            &&& final(transcript)@ == old(transcript)@
            &&& final(current_line)@ == old(current_line)@
        },
        (submit_just_pressed && old(state).input@.len() > 0 && !is_terminating(
            trim_chars(old(state).input@),
        )) ==> {
            &&& final(transcript)@ == old(transcript)@ + response_for(
                trim_chars(old(state).input@),
            ) + seq!['\n']
            &&& final(current_line)@ == prompt()
            &&& final(state).input@ == Seq::<char>::empty()
        },
        mirrors(final(current_line)@, final(state).input@),
{
    if !submit_just_pressed || state.input.len() == 0 {
        return Control::Continue;
    }
    let cmd = trim(&state.input);
    match lookup(&cmd) {
        CommandAction::Terminate => Control::Terminate,
        CommandAction::Respond(response) => {
            push_chars(transcript, &response);
            transcript.push('\n');
            current_line.clear();
            push_str_chars(current_line, "> ");
            state.input.clear();
            proof {
                assert(transcript@ =~= old(transcript)@ + response@ + seq!['\n']);
                assert(current_line@ =~= prompt());
                assert(current_line@ =~= prompt() + state.input@);
            }
            Control::Continue
        },
    }
}

} // verus!

