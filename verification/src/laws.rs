//! Laws of the accumulator, stated and proved over its specification.
//!
//! `handle_input`'s contract already pins each tick down; the proof
//! functions here state the properties that span whole runs of ticks.

use vstd::prelude::*;

use crate::keys::{KeyEvent, key_char, lemma_key_char_insertable};
use crate::terminal::{accumulate, event_char, typed_chars};

verus! {

/// For a tick whose key events are all presses of character keys, the
/// accumulated characters are exactly the keys' mapped characters in
/// arrival order; together with `handle_input`'s mirroring postcondition,
/// the current line then shows the prompt marker followed by those same
/// characters.
pub proof fn lemma_typed_chars_mapped(events: Seq<KeyEvent>)
    requires
        forall|i: int|
            0 <= i < events.len() ==> events[i].pressed && key_char(events[i].key) is Some,
    ensures
        typed_chars(events).len() == events.len(),
        forall|i: int|
            0 <= i < events.len() ==> Some(typed_chars(events)[i]) == key_char(events[i].key),
    decreases events.len(),
{
    if events.len() > 0 {
        let front = events.drop_last();
        lemma_typed_chars_mapped(front);
        let e = events.last();
        lemma_key_char_insertable(e.key);
        assert(event_char(e) == key_char(e.key));
        assert forall|i: int| 0 <= i < events.len() implies Some(typed_chars(events)[i])
            == key_char(events[i].key) by {
            if i < events.len() - 1 {
                assert(typed_chars(events)[i] == typed_chars(front)[i]);
            }
        }
    }
}

/// Erase is idempotent on an empty buffer: a tick that types nothing and
/// presses the erase key leaves an empty line buffer unchanged, and with it
/// the current line it mirrors.
pub proof fn lemma_erase_on_empty(buf: Seq<char>)
    requires
        buf.len() == 0,
    ensures
        accumulate(buf, Seq::<KeyEvent>::empty(), true) == buf,
{
    assert(buf + typed_chars(Seq::<KeyEvent>::empty()) =~= buf);
}

/// The line buffer after `m` further ticks that each only press the erase
/// key.
pub open spec fn erase_n(buf: Seq<char>, m: nat) -> Seq<char>
    decreases m,
{
    if m == 0 {
        buf
    } else {
        erase_n(accumulate(buf, Seq::<KeyEvent>::empty(), true), (m - 1) as nat)
    }
}

/// Erasing `m` times removes exactly the last `m` characters.
proof fn lemma_erase_n(buf: Seq<char>, m: nat)
    requires
        m <= buf.len(),
    ensures
        erase_n(buf, m) == buf.take((buf.len() - m) as int),
    decreases m,
{
    if m == 0 {
        assert(buf.take(buf.len() as int) =~= buf);
    } else {
        assert(buf + typed_chars(Seq::<KeyEvent>::empty()) =~= buf);
        lemma_erase_n(buf.drop_last(), (m - 1) as nat);
        assert(buf.drop_last().take((buf.len() - m) as int) =~= buf.take((buf.len() - m) as int));
    }
}

/// Typing a burst of characters and then erasing `m` of them, `m` at most
/// the number typed, leaves exactly the first ones typed, in order.
pub proof fn lemma_type_then_erase(events: Seq<KeyEvent>, m: nat)
    requires
        m <= typed_chars(events).len(),
    ensures
        erase_n(accumulate(Seq::<char>::empty(), events, false), m) == typed_chars(events).take(
            (typed_chars(events).len() - m) as int,
        ),
{
    assert(accumulate(Seq::<char>::empty(), events, false) =~= typed_chars(events));
    lemma_erase_n(typed_chars(events), m);
}

} // verus!
