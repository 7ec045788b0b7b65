//! Romanization of Ukrainian Cyrillic text.
//!
//! The crate maps Ukrainian Cyrillic letters to their Latin-alphabet
//! counterparts in a single left-to-right scan, using one mapping table for
//! letters in word-initial position and another for all other positions,
//! and applying three orthographic rules: the soft sign is elided, a
//! diacritical apostrophe is suppressed, and the letter pair з + г is
//! rendered "zgh".

use vstd::prelude::*;
use vstd::string::StrSliceExecFns;
use vstd::string::StringExecFns;

pub mod alphabet;
pub mod engine;
pub mod laws;
pub mod uaroman;

verus! {

/// Transliterates Ukrainian Cyrillic text by means of the Latin alphabet.
///
/// The result is the single-pass romanization of the input: every character
/// outside the Ukrainian alphabet passes through unchanged, every alphabet
/// letter is replaced by its Latin form for its word position, the soft
/// sign is elided, a diacritical apostrophe is dropped, and з + г becomes
/// "zgh".
pub fn romanize(text: &str) -> (result: String)
    ensures
        result@ == engine::romanize_spec(text@),
{
    let text_len = text.unicode_len();
    let mut out = String::new();
    let mut word_initial: bool = true;
    let mut after_z: bool = false;
    let mut pending_apostrophe: bool = false;
    let mut i: usize = 0;
    while i < text_len
        invariant
            i <= text_len,
            text_len == text@.len(),
            (engine::ScanState { word_initial, after_z, pending_apostrophe })
                == engine::state_after(text@.take(i as int), engine::start_state()),
            out@ == engine::emitted(text@.take(i as int), engine::start_state()),
        decreases text_len - i,
    {
        let ghost prefix = text@.take(i as int);
        let ghost st = engine::ScanState { word_initial, after_z, pending_apostrophe };
        let c = text.get_char(i);
        // restore a held non-diacritical apostrophe ahead of this character
        if pending_apostrophe && !alphabet::is_iotated(c) {
            out.append("'");
            proof {
                reveal_strlit("'");
                assert("'"@ =~= seq!['\'']);
            }
        }
        proof {
            assert(out@ =~= engine::emitted(prefix, engine::start_state()) + engine::restored(
                st,
                c,
            ));
        }
        // compute this character's own fragment
        if after_z && c == 'г' {
            // the digraph exception: "зг" romanizes as "zgh"
            out.append("gh");
        } else if c == 'ь' || (c == '\'' && !word_initial) {
            // elide the soft sign; hold a non-word-initial apostrophe
        } else {
            // map through the table for this word position; a character the
            // table does not know passes through and resets the word run
            let looked_up = if word_initial {
                alphabet::lookup_initial(c)
            } else {
                alphabet::lookup_other(c)
            };
            match looked_up {
                Some(latin) => {
                    word_initial = false;
                    out.append(latin);
                },
                None => {
                    word_initial = true;
                    let passthrough = text.substring_char(i, i + 1);
                    proof {
                        assert(passthrough@ =~= seq![c]);
                    }
                    out.append(passthrough);
                },
            }
        }
        proof {
            assert(out@ =~= engine::emitted(prefix, engine::start_state()) + engine::step_emit(
                st,
                c,
            ));
        }
        // arm the digraph and apostrophe flags for the next character
        after_z = c == 'З' || c == 'з';
        pending_apostrophe = c == '\'' && !word_initial;
        proof {
            engine::lemma_emitted_snoc(prefix, c, engine::start_state());
            assert(text@.take(i + 1 as int) =~= prefix.push(c));
        }
        i = i + 1;
    }
    proof {
        assert(text@.take(text_len as int) =~= text@);
    }
    // an apostrophe still held at the end of the input reappears
    if pending_apostrophe {
        out.append("'");
        proof {
            reveal_strlit("'");
            assert("'"@ =~= seq!['\'']);
        }
    }
    proof {
        assert(out@ =~= engine::romanize_spec(text@));
    }
    out
}

} // verus!
