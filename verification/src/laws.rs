//! General properties of the romanization, stated and proved once for all
//! inputs.

use vstd::prelude::*;

use crate::alphabet::{initial_tab, iotated, is_alphabet, lemma_tables_same_keys, other_tab, zet};
use crate::engine::{
    emitted, fragment, lemma_emitted_concat, restored, romanize_spec, start_state, state_after,
    step_emit, step_state, tail_emit, ScanState,
};

verus! {

/// Romanizing the empty text yields the empty text.
pub proof fn lemma_empty_input()
    ensures
        romanize_spec(Seq::<char>::empty()) == Seq::<char>::empty(),
{
    assert(romanize_spec(Seq::<char>::empty()) =~= Seq::<char>::empty());
}

/// Romanization is deterministic: any two outputs that meet the contract of
/// `romanize` on the same input are equal.
pub proof fn lemma_deterministic(text: Seq<char>, first: Seq<char>, second: Seq<char>)
    requires
        first == romanize_spec(text),
        second == romanize_spec(text),
    ensures
        first == second,
{
}

/// Scanning text that holds no alphabet letter and no soft sign, from a
/// word-initial state with no held apostrophe, emits it unchanged and ends
/// in such a state again.
proof fn lemma_pass_through_from(text: Seq<char>, st: ScanState)
    requires
        st.word_initial,
        !st.pending_apostrophe,
        forall|i: int| 0 <= i < text.len() ==> !is_alphabet(#[trigger] text[i]) && text[i] != 'ь',
    ensures
        emitted(text, st) == text,
        state_after(text, st).word_initial,
        !state_after(text, st).pending_apostrophe,
    decreases text.len(),
{
    if text.len() == 0 {
        assert(emitted(text, st) =~= text);
    } else {
        let c = text[0];
        assert(!is_alphabet(c) && c != 'ь');
        assert(is_alphabet('г'));
        assert(step_emit(st, c) =~= seq![c]);
        let rest = text.drop_first();
        assert forall|i: int| 0 <= i < rest.len() implies !is_alphabet(#[trigger] rest[i])
            && rest[i] != 'ь' by {
            assert(rest[i] == text[i + 1]);
        }
        lemma_pass_through_from(rest, step_state(st, c));
        assert(emitted(text, st) =~= text);
    }
}

/// Text containing no Ukrainian Cyrillic letter romanizes to itself: every
/// character passes through, and nothing is dropped, held or reordered.
pub proof fn lemma_foreign_text_unchanged(text: Seq<char>)
    requires
        forall|i: int| 0 <= i < text.len() ==> !is_alphabet(#[trigger] text[i]) && text[i] != 'ь',
    ensures
        romanize_spec(text) == text,
{
    lemma_pass_through_from(text, start_state());
    assert(romanize_spec(text) =~= text);
}

/// The soft sign contributes zero characters of its own in every state, and
/// never arms a deferred apostrophe: whatever a step on ь emits is only the
/// restoration owed to an earlier apostrophe.
pub proof fn lemma_soft_sign_elision(st: ScanState)
    ensures
        fragment(st, 'ь') == Seq::<char>::empty(),
        step_emit(st, 'ь') == restored(st, 'ь'),
        !step_state(st, 'ь').pending_apostrophe,
{
    assert(fragment(st, 'ь') =~= Seq::<char>::empty());
    assert(step_emit(st, 'ь') =~= restored(st, 'ь'));
}

/// An apostrophe is held back exactly when it stands in non-word-initial
/// position; in word-initial position it passes through at once.
pub proof fn lemma_apostrophe_held(st: ScanState)
    ensures
        step_state(st, '\'').pending_apostrophe == !st.word_initial,
        fragment(st, '\'') == (if st.word_initial {
            seq!['\'']
        } else {
            Seq::<char>::empty()
        }),
{
    if st.word_initial {
        assert(fragment(st, '\'') =~= seq!['\'']);
    } else {
        assert(fragment(st, '\'') =~= Seq::<char>::empty());
    }
}

/// A held apostrophe is restored ahead of any character that is not an
/// iotated vowel, and stays dropped ahead of an iotated vowel; one still
/// held at the end of the input is restored there.
pub proof fn lemma_apostrophe_restored(st: ScanState, c: char)
    requires
        st.pending_apostrophe,
    ensures
        !iotated(c) ==> step_emit(st, c) == seq!['\''] + fragment(st, c),
        iotated(c) ==> step_emit(st, c) == fragment(st, c),
        tail_emit(st) == seq!['\''],
{
    if iotated(c) {
        assert(step_emit(st, c) =~= fragment(st, c));
    }
}

/// The digraph exception: after З or з, the lower-case г contributes "gh";
/// without a preceding zet it contributes "h" in either word position. The
/// exception is armed by exactly the two zet letters.
pub proof fn lemma_digraph_exception(st: ScanState, c: char)
    ensures
        st.after_z ==> fragment(st, 'г') == "gh"@,
        !st.after_z ==> fragment(st, 'г') == "h"@,
        step_state(st, c).after_z == zet(c),
{
}

/// A character outside the alphabet that is neither the soft sign nor an
/// apostrophe splits the text: each side romanizes independently, and the
/// separator passes through between them. In particular, a space resets the
/// word-initial context for the following word.
pub proof fn lemma_word_break(a: Seq<char>, sep: char, b: Seq<char>)
    requires
        !is_alphabet(sep),
        sep != 'ь',
        sep != '\'',
    ensures
        romanize_spec(a + seq![sep] + b) == romanize_spec(a) + seq![sep] + romanize_spec(b),
{
    let init = start_state();
    let mid = seq![sep] + b;
    let sa = state_after(a, init);
    assert(a + seq![sep] + b =~= a + mid);
    lemma_emitted_concat(a, mid, init);
    // the separator is no iotated vowel: all iotated vowels are alphabet letters
    assert(is_alphabet('Є') && is_alphabet('Ї') && is_alphabet('Ю') && is_alphabet('Я'));
    assert(is_alphabet('є') && is_alphabet('ї') && is_alphabet('ю') && is_alphabet('я'));
    assert(!iotated(sep));
    // the separator is no zet and no г: those are alphabet letters too
    assert(is_alphabet('З') && is_alphabet('з') && is_alphabet('г'));
    // the separator fails both table lookups and passes through
    lemma_tables_same_keys(sep);
    assert(restored(sa, sep) =~= tail_emit(sa));
    assert(step_emit(sa, sep) =~= tail_emit(sa) + seq![sep]);
    assert(step_state(sa, sep) == init);
    assert(mid[0] == sep);
    assert(mid.drop_first() =~= b);
    assert(emitted(mid, sa) =~= tail_emit(sa) + seq![sep] + emitted(b, init));
    assert(state_after(mid, sa) == state_after(b, init));
    assert(romanize_spec(a + seq![sep] + b) =~= romanize_spec(a) + seq![sep] + romanize_spec(b));
}

/// Word-initial context resets across a space: each whitespace-delimited
/// word romanizes as if it stood alone.
pub proof fn lemma_space_resets_word(a: Seq<char>, b: Seq<char>)
    ensures
        romanize_spec(a + seq![' '] + b) == romanize_spec(a) + seq![' '] + romanize_spec(b),
{
    lemma_word_break(a, ' ', b);
}

} // verus!
