//! The two alphabet tables of the romanization standard, and the fixed set
//! of iotated vowels used by the apostrophe rule.
//!
//! Each table maps one Ukrainian Cyrillic letter to its Latin form. The two
//! tables share one key set — the Ukrainian alphabet — and differ only on
//! the iotated vowels Є, Ї, Ю, Я and on Й, whose Latin form starts with an
//! on-glide "y" only in word-initial position.

use vstd::prelude::*;

verus! {

/// The word-initial table: the Latin form of a Ukrainian Cyrillic letter at
/// the start of a word, or `None` for any character outside the alphabet.
pub open spec fn initial_tab(c: char) -> Option<Seq<char>> {
    match c {
        'А' => Some("A"@),
        'а' => Some("a"@),
        'Б' => Some("B"@),
        'б' => Some("b"@),
        'В' => Some("V"@),
        'в' => Some("v"@),
        'Г' => Some("H"@),
        'г' => Some("h"@),
        'Ґ' => Some("G"@),
        'ґ' => Some("g"@),
        'Д' => Some("D"@),
        'д' => Some("d"@),
        'Е' => Some("E"@),
        'е' => Some("e"@),
        'Є' => Some("Ye"@),
        'є' => Some("ye"@),
        'Ж' => Some("Zh"@),
        'ж' => Some("zh"@),
        'З' => Some("Z"@),
        'з' => Some("z"@),
        'И' => Some("Y"@),
        'и' => Some("y"@),
        'І' => Some("I"@),
        'і' => Some("i"@),
        'Ї' => Some("Yi"@),
        'ї' => Some("yi"@),
        'Й' => Some("Y"@),
        'й' => Some("y"@),
        'К' => Some("K"@),
        'к' => Some("k"@),
        'Л' => Some("L"@),
        'л' => Some("l"@),
        'М' => Some("M"@),
        'м' => Some("m"@),
        'Н' => Some("N"@),
        'н' => Some("n"@),
        'О' => Some("O"@),
        'о' => Some("o"@),
        'П' => Some("P"@),
        'п' => Some("p"@),
        'Р' => Some("R"@),
        'р' => Some("r"@),
        'С' => Some("S"@),
        'с' => Some("s"@),
        'Т' => Some("T"@),
        'т' => Some("t"@),
        'У' => Some("U"@),
        'у' => Some("u"@),
        'Ф' => Some("F"@),
        'ф' => Some("f"@),
        'Х' => Some("Kh"@),
        'х' => Some("kh"@),
        'Ц' => Some("Ts"@),
        'ц' => Some("ts"@),
        'Ч' => Some("Ch"@),
        'ч' => Some("ch"@),
        'Ш' => Some("Sh"@),
        'ш' => Some("sh"@),
        'Щ' => Some("Shch"@),
        'щ' => Some("shch"@),
        'Ю' => Some("Yu"@),
        'ю' => Some("yu"@),
        'Я' => Some("Ya"@),
        'я' => Some("ya"@),
        _ => None,
    }
}

/// The other-position table: the Latin form of a Ukrainian Cyrillic letter
/// anywhere but the start of a word, or `None` outside the alphabet.
pub open spec fn other_tab(c: char) -> Option<Seq<char>> {
    match c {
        'А' => Some("A"@),
        'а' => Some("a"@),
        'Б' => Some("B"@),
        'б' => Some("b"@),
        'В' => Some("V"@),
        'в' => Some("v"@),
        'Г' => Some("H"@),
        'г' => Some("h"@),
        'Ґ' => Some("G"@),
        'ґ' => Some("g"@),
        'Д' => Some("D"@),
        'д' => Some("d"@),
        'Е' => Some("E"@),
        'е' => Some("e"@),
        'Є' => Some("Ie"@),
        'є' => Some("ie"@),
        'Ж' => Some("Zh"@),
        'ж' => Some("zh"@),
        'З' => Some("Z"@),
        'з' => Some("z"@),
        'И' => Some("Y"@),
        'и' => Some("y"@),
        'І' => Some("I"@),
        'і' => Some("i"@),
        'Ї' => Some("I"@),
        'ї' => Some("i"@),
        'Й' => Some("I"@),
        'й' => Some("i"@),
        'К' => Some("K"@),
        'к' => Some("k"@),
        'Л' => Some("L"@),
        'л' => Some("l"@),
        'М' => Some("M"@),
        'м' => Some("m"@),
        'Н' => Some("N"@),
        'н' => Some("n"@),
        'О' => Some("O"@),
        'о' => Some("o"@),
        'П' => Some("P"@),
        'п' => Some("p"@),
        'Р' => Some("R"@),
        'р' => Some("r"@),
        'С' => Some("S"@),
        'с' => Some("s"@),
        'Т' => Some("T"@),
        'т' => Some("t"@),
        'У' => Some("U"@),
        'у' => Some("u"@),
        'Ф' => Some("F"@),
        'ф' => Some("f"@),
        'Х' => Some("Kh"@),
        'х' => Some("kh"@),
        'Ц' => Some("Ts"@),
        'ц' => Some("ts"@),
        'Ч' => Some("Ch"@),
        'ч' => Some("ch"@),
        'Ш' => Some("Sh"@),
        'ш' => Some("sh"@),
        'Щ' => Some("Shch"@),
        'щ' => Some("shch"@),
        'Ю' => Some("Iu"@),
        'ю' => Some("iu"@),
        'Я' => Some("Ia"@),
        'я' => Some("ia"@),
        _ => None,
    }
}

/// A character belongs to the Ukrainian alphabet exactly when the tables map
/// it. The soft sign ь has no Latin form and is not in the tables.
pub open spec fn is_alphabet(c: char) -> bool {
    initial_tab(c) is Some
}

/// The iotated vowels: a preceding apostrophe is purely diacritical and is
/// never reproduced before one of these.
pub open spec fn iotated(c: char) -> bool {
    ||| c == 'Є'
    ||| c == 'Ї'
    ||| c == 'Ю'
    ||| c == 'Я'
    ||| c == 'є'
    ||| c == 'ї'
    ||| c == 'ю'
    ||| c == 'я'
}

/// The letter zet, either case: the previous character being one of these
/// arms the з + г digraph exception.
pub open spec fn zet(c: char) -> bool {
    c == 'З' || c == 'з'
}

/// Both tables map exactly the same letters: a character outside one table
/// is outside the other, so "foreign to the alphabet" does not depend on
/// word position.
pub proof fn lemma_tables_same_keys(c: char)
    ensures
        initial_tab(c) is Some <==> other_tab(c) is Some,
{
}

/// Word-initial lookup, exactly the spec-level table.
pub(crate) fn lookup_initial(c: char) -> (r: Option<&'static str>)
    ensures
        match r {
            Some(s) => initial_tab(c) == Some(s@),
            None => initial_tab(c) is None,
        },
{
    match c {
        'А' => Some("A"),
        'а' => Some("a"),
        'Б' => Some("B"),
        'б' => Some("b"),
        'В' => Some("V"),
        'в' => Some("v"),
        'Г' => Some("H"),
        'г' => Some("h"),
        'Ґ' => Some("G"),
        'ґ' => Some("g"),
        'Д' => Some("D"),
        'д' => Some("d"),
        'Е' => Some("E"),
        'е' => Some("e"),
        'Є' => Some("Ye"),
        'є' => Some("ye"),
        'Ж' => Some("Zh"),
        'ж' => Some("zh"),
        'З' => Some("Z"),
        'з' => Some("z"),
        'И' => Some("Y"),
        'и' => Some("y"),
        'І' => Some("I"),
        'і' => Some("i"),
        'Ї' => Some("Yi"),
        'ї' => Some("yi"),
        'Й' => Some("Y"),
        'й' => Some("y"),
        'К' => Some("K"),
        'к' => Some("k"),
        'Л' => Some("L"),
        'л' => Some("l"),
        'М' => Some("M"),
        'м' => Some("m"),
        'Н' => Some("N"),
        'н' => Some("n"),
        'О' => Some("O"),
        'о' => Some("o"),
        'П' => Some("P"),
        'п' => Some("p"),
        'Р' => Some("R"),
        'р' => Some("r"),
        'С' => Some("S"),
        'с' => Some("s"),
        'Т' => Some("T"),
        'т' => Some("t"),
        'У' => Some("U"),
        'у' => Some("u"),
        'Ф' => Some("F"),
        'ф' => Some("f"),
        'Х' => Some("Kh"),
        'х' => Some("kh"),
        'Ц' => Some("Ts"),
        'ц' => Some("ts"),
        'Ч' => Some("Ch"),
        'ч' => Some("ch"),
        'Ш' => Some("Sh"),
        'ш' => Some("sh"),
        'Щ' => Some("Shch"),
        'щ' => Some("shch"),
        'Ю' => Some("Yu"),
        'ю' => Some("yu"),
        'Я' => Some("Ya"),
        'я' => Some("ya"),
        _ => None,
    }
}

/// Other-position lookup, exactly the spec-level table.
pub(crate) fn lookup_other(c: char) -> (r: Option<&'static str>)
    ensures
        match r {
            Some(s) => other_tab(c) == Some(s@),
            None => other_tab(c) is None,
        },
{
    match c {
        'А' => Some("A"),
        'а' => Some("a"),
        'Б' => Some("B"),
        'б' => Some("b"),
        'В' => Some("V"),
        'в' => Some("v"),
        'Г' => Some("H"),
        'г' => Some("h"),
        'Ґ' => Some("G"),
        'ґ' => Some("g"),
        'Д' => Some("D"),
        'д' => Some("d"),
        'Е' => Some("E"),
        'е' => Some("e"),
        'Є' => Some("Ie"),
        'є' => Some("ie"),
        'Ж' => Some("Zh"),
        'ж' => Some("zh"),
        'З' => Some("Z"),
        'з' => Some("z"),
        'И' => Some("Y"),
        'и' => Some("y"),
        'І' => Some("I"),
        'і' => Some("i"),
        'Ї' => Some("I"),
        'ї' => Some("i"),
        'Й' => Some("I"),
        'й' => Some("i"),
        'К' => Some("K"),
        'к' => Some("k"),
        'Л' => Some("L"),
        'л' => Some("l"),
        'М' => Some("M"),
        'м' => Some("m"),
        'Н' => Some("N"),
        'н' => Some("n"),
        'О' => Some("O"),
        'о' => Some("o"),
        'П' => Some("P"),
        'п' => Some("p"),
        'Р' => Some("R"),
        'р' => Some("r"),
        'С' => Some("S"),
        'с' => Some("s"),
        'Т' => Some("T"),
        'т' => Some("t"),
        'У' => Some("U"),
        'у' => Some("u"),
        'Ф' => Some("F"),
        'ф' => Some("f"),
        'Х' => Some("Kh"),
        'х' => Some("kh"),
        'Ц' => Some("Ts"),
        'ц' => Some("ts"),
        'Ч' => Some("Ch"),
        'ч' => Some("ch"),
        'Ш' => Some("Sh"),
        'ш' => Some("sh"),
        'Щ' => Some("Shch"),
        'щ' => Some("shch"),
        'Ю' => Some("Iu"),
        'ю' => Some("iu"),
        'Я' => Some("Ia"),
        'я' => Some("ia"),
        _ => None,
    }
}

/// Whether `c` is an iotated vowel, exactly the spec-level set.
pub(crate) fn is_iotated(c: char) -> (r: bool)
    ensures
        r == iotated(c),
{
    c == 'Є' || c == 'Ї' || c == 'Ю' || c == 'Я' || c == 'є' || c == 'ї' || c == 'ю' || c == 'я'
}

} // verus!
