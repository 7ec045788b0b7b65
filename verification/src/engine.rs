//! The mathematical model of the romanization scan.
//!
//! The scan walks the input left to right carrying three flags: whether the
//! next alphabet letter stands in word-initial position, whether the
//! previous character was the letter zet, and whether a suppressed
//! apostrophe is still waiting for the next character to decide its fate.
//! Each character emits a possibly empty fragment and yields the next
//! state; the romanization of a text is the concatenation of all fragments,
//! plus one trailing apostrophe when the input ends while one is held.

use vstd::prelude::*;

use crate::alphabet::{initial_tab, iotated, other_tab, zet};

verus! {

/// The three flags carried through the scan.
pub struct ScanState {
    /// The next alphabet letter uses the word-initial table.
    pub word_initial: bool,
    /// The previous character was З or з.
    pub after_z: bool,
    /// A suppressed apostrophe is waiting for the next character.
    pub pending_apostrophe: bool,
}

/// The state at the start of a scan: word-initial, no zet seen, no
/// apostrophe held.
pub open spec fn start_state() -> ScanState {
    ScanState { word_initial: true, after_z: false, pending_apostrophe: false }
}

/// The table selected by the word-initial flag.
pub open spec fn tab(word_initial: bool, c: char) -> Option<Seq<char>> {
    if word_initial {
        initial_tab(c)
    } else {
        other_tab(c)
    }
}

/// The apostrophe restored ahead of `c`: a held apostrophe reappears before
/// any character that is not an iotated vowel; before an iotated vowel it
/// was diacritical and stays dropped.
pub open spec fn restored(st: ScanState, c: char) -> Seq<char> {
    if st.pending_apostrophe && !iotated(c) {
        seq!['\'']
    } else {
        Seq::empty()
    }
}

/// The fragment `c` itself contributes: "gh" under the digraph exception,
/// nothing for the soft sign or a suppressed apostrophe, the table entry
/// for an alphabet letter, and `c` unchanged for anything else.
pub open spec fn fragment(st: ScanState, c: char) -> Seq<char> {
    if st.after_z && c == 'г' {
        "gh"@
    } else if c == 'ь' || (c == '\'' && !st.word_initial) {
        Seq::empty()
    } else {
        match tab(st.word_initial, c) {
            Some(latin) => latin,
            None => seq![c],
        }
    }
}

/// The word-initial flag after `c`: a successful table lookup starts a word
/// run, a failed one resets the flag, and the digraph and elision branches
/// leave it as it was.
pub open spec fn next_word_initial(st: ScanState, c: char) -> bool {
    if st.after_z && c == 'г' {
        st.word_initial
    } else if c == 'ь' || (c == '\'' && !st.word_initial) {
        st.word_initial
    } else {
        tab(st.word_initial, c) is None
    }
}

/// The state after consuming `c`: an apostrophe is held exactly when it was
/// consumed in non-word-initial position.
pub open spec fn step_state(st: ScanState, c: char) -> ScanState {
    let word_initial = next_word_initial(st, c);
    ScanState {
        word_initial,
        after_z: zet(c),
        pending_apostrophe: c == '\'' && !word_initial,
    }
}

/// Everything emitted while consuming `c`: the restored apostrophe, if any,
/// followed by the character's own fragment.
pub open spec fn step_emit(st: ScanState, c: char) -> Seq<char> {
    restored(st, c) + fragment(st, c)
}

/// What is emitted after the last character: an apostrophe still held at
/// the end of the input reappears.
pub open spec fn tail_emit(st: ScanState) -> Seq<char> {
    if st.pending_apostrophe {
        seq!['\'']
    } else {
        Seq::empty()
    }
}

/// All fragments emitted while scanning `text` from state `st`.
pub open spec fn emitted(text: Seq<char>, st: ScanState) -> Seq<char>
    decreases text.len(),
{
    if text.len() == 0 {
        Seq::empty()
    } else {
        step_emit(st, text[0]) + emitted(text.drop_first(), step_state(st, text[0]))
    }
}

/// The state left behind after scanning `text` from state `st`.
pub open spec fn state_after(text: Seq<char>, st: ScanState) -> ScanState
    decreases text.len(),
{
    if text.len() == 0 {
        st
    } else {
        state_after(text.drop_first(), step_state(st, text[0]))
    }
}

/// The romanization of a text: one scan from the start state, plus the
/// trailing apostrophe when one is still held at the end.
pub open spec fn romanize_spec(text: Seq<char>) -> Seq<char> {
    emitted(text, start_state()) + tail_emit(state_after(text, start_state()))
}

/// Scanning a concatenation emits the first part's fragments, then the
/// second part's from the state the first part left behind.
pub proof fn lemma_emitted_concat(a: Seq<char>, b: Seq<char>, st: ScanState)
    ensures
        emitted(a + b, st) == emitted(a, st) + emitted(b, state_after(a, st)),
        state_after(a + b, st) == state_after(b, state_after(a, st)),
    decreases a.len(),
{
    if a.len() == 0 {
        assert(a + b =~= b);
        assert(emitted(a, st) + emitted(b, st) =~= emitted(b, st));
    } else {
        let c = a[0];
        assert((a + b)[0] == c);
        assert((a + b).drop_first() =~= a.drop_first() + b);
        lemma_emitted_concat(a.drop_first(), b, step_state(st, c));
        assert(emitted(a + b, st) =~= emitted(a, st) + emitted(b, state_after(a, st)));
    }
}

/// One more character extends the emitted output by that character's own
/// emission, taken in the state the prefix left behind.
pub proof fn lemma_emitted_snoc(a: Seq<char>, c: char, st: ScanState)
    ensures
        emitted(a.push(c), st) == emitted(a, st) + step_emit(state_after(a, st), c),
        state_after(a.push(c), st) == step_state(state_after(a, st), c),
{
    let single = seq![c];
    assert(a.push(c) =~= a + single);
    lemma_emitted_concat(a, single, st);
    let mid = state_after(a, st);
    assert(single[0] == c);
    assert(single.drop_first() =~= Seq::<char>::empty());
    assert(emitted(single.drop_first(), step_state(mid, c)) =~= Seq::<char>::empty());
    assert(emitted(single, mid) =~= step_emit(mid, c));
    assert(state_after(single.drop_first(), step_state(mid, c)) == step_state(mid, c));
    assert(state_after(single, mid) == step_state(mid, c));
}

} // verus!
