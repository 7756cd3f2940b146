//! Random passwords over chosen classes of characters.

use rand::seq::SliceRandom;
use vstd::prelude::*;
use vstd::seq_lib::to_multiset_contains;
use vstd::seq_lib::to_multiset_len;
use vstd::string::StrSliceExecFns;

verus! {

/// Stands for `rand::rngs::ThreadRng`, the random generator of the current
/// thread.
#[verifier::external_type_specification]
#[verifier::external_body]
pub struct ExThreadRng(rand::rngs::ThreadRng);

/// The capital letters.
pub const UPPER: &'static str = "ABCDEFGHIJKLMNOPQRSTUVWXYZ";

/// The small letters.
pub const LOWER: &'static str = "abcdefghijklmnopqrstuvwxyz";

/// The digits.
pub const NUMBER: &'static str = "0123456789";

/// The punctuation marks that a password may hold.
pub const SYMBOL: &'static str = "!@#$%^&*_";

/// The characters a password is drawn from: those of each chosen class, the
/// classes in the order capital letters, small letters, digits, marks.
pub open spec fn pool(uppercase: bool, lowercase: bool, number: bool, symbol: bool) -> Seq<char> {
    (if uppercase {
        UPPER@
    } else {
        Seq::<char>::empty()
    }) + (if lowercase {
        LOWER@
    } else {
        Seq::<char>::empty()
    }) + (if number {
        NUMBER@
    } else {
        Seq::<char>::empty()
    }) + (if symbol {
        SYMBOL@
    } else {
        Seq::<char>::empty()
    })
}

/// How many of the four classes are chosen.
pub open spec fn class_count(uppercase: bool, lowercase: bool, number: bool, symbol: bool) -> nat {
    (if uppercase {
        1nat
    } else {
        0nat
    }) + (if lowercase {
        1nat
    } else {
        0nat
    }) + (if number {
        1nat
    } else {
        0nat
    }) + (if symbol {
        1nat
    } else {
        0nat
    })
}

/// Whether some character of `text` belongs to `class`.
pub open spec fn has_char_of(text: Seq<char>, class: Seq<char>) -> bool {
    exists|i: int| 0 <= i < text.len() && class.contains(#[trigger] text[i])
}

/// Whether every character of `text` belongs to `class`.
pub open spec fn all_chars_of(text: Seq<char>, class: Seq<char>) -> bool {
    forall|i: int| 0 <= i < text.len() ==> class.contains(#[trigger] text[i])
}

/// Calls `rand::thread_rng`, which hands out the random generator of the
/// current thread. Nothing is claimed of it.
#[verifier::external_body]
fn thread_rng() -> (rng: rand::rngs::ThreadRng) {
    rand::thread_rng()
}

/// Calls `rand::seq::SliceRandom::choose`, which returns one element of the
/// slice, or `None` if the slice is empty. Which element it is depends on
/// chance: the contract claims only that it is one of the slice.
#[verifier::external_body]
fn choose_one(items: &[char], rng: &mut rand::rngs::ThreadRng) -> (chosen: Option<char>)
    ensures
        items@.len() == 0 ==> chosen is None,
        items@.len() > 0 ==> chosen is Some && items@.contains(chosen->Some_0),
{
    items.choose(rng).copied()
}

/// Calls `rand::seq::SliceRandom::shuffle`, which reorders the slice in
/// place. The order depends on chance: the contract claims only that the
/// elements are the same, each as often as before.
#[verifier::external_body]
fn shuffle(items: &mut Vec<char>, rng: &mut rand::rngs::ThreadRng)
    ensures
        final(items)@.to_multiset() == old(items)@.to_multiset(),
{
    items.shuffle(rng);
}

/// Calls `String::push`, which appends one character to the string.
#[verifier::external_body]
fn push_char(text: &mut String, c: char)
    ensures
        final(text)@ == old(text)@.push(c),
{
    text.push(c);
}

/// The characters of `text`, one by one.
fn chars_of(text: &str) -> (chars: Vec<char>)
    ensures
        chars@ == text@,
{
    let n = text.unicode_len();
    let mut chars: Vec<char> = Vec::new();
    let mut i: usize = 0;
    while i < n
        invariant
            n == text@.len(),
            i <= n,
            chars@ == text@.subrange(0, i as int),
        decreases n - i,
    {
        chars.push(text.get_char(i));
        assert(chars@ =~= text@.subrange(0, i + 1));
        i += 1;
    }
    assert(chars@ =~= text@);
    chars
}

/// The string that holds `chars`, one by one.
fn string_of(chars: &Vec<char>) -> (text: String)
    ensures
        text@ == chars@,
{
    let mut text = String::new();
    let mut i: usize = 0;
    while i < chars.len()
        invariant
            i <= chars@.len(),
            text@ == chars@.subrange(0, i as int),
        decreases chars@.len() - i,
    {
        push_char(&mut text, chars[i]);
        assert(text@ =~= chars@.subrange(0, i + 1));
        i += 1;
    }
    assert(text@ =~= chars@);
    text
}

/// Two sequences with the same elements, each as often in one as in the
/// other, have the same length, and what holds of all or of some elements of
/// one holds of the other.
proof fn lemma_same_elements(before: Seq<char>, after: Seq<char>, class: Seq<char>)
    requires
        before.to_multiset() == after.to_multiset(),
    ensures
        before.len() == after.len(),
        all_chars_of(before, class) ==> all_chars_of(after, class),
        has_char_of(before, class) ==> has_char_of(after, class),
{
    to_multiset_len(before);
    to_multiset_len(after);
    if all_chars_of(before, class) {
        assert forall|i: int| 0 <= i < after.len() implies class.contains(#[trigger] after[i]) by {
            let c = after[i];
            to_multiset_contains(after, c);
            to_multiset_contains(before, c);
            assert(after.contains(c));
            let j = choose|j: int| 0 <= j < before.len() && before[j] == c;
            assert(class.contains(before[j]));
        }
    }
    if has_char_of(before, class) {
        let i = choose|i: int| 0 <= i < before.len() && class.contains(#[trigger] before[i]);
        let c = before[i];
        to_multiset_contains(after, c);
        to_multiset_contains(before, c);
        assert(before.contains(c));
        let j = choose|j: int| 0 <= j < after.len() && after[j] == c;
        assert(class.contains(after[j]));
    }
}

/// Appending a character keeps what held of all characters, where it holds
/// of the new one, and what held of some character.
proof fn lemma_push(before: Seq<char>, c: char, class: Seq<char>)
    ensures
        all_chars_of(before, class) && class.contains(c) ==> all_chars_of(before.push(c), class),
        has_char_of(before, class) || class.contains(c) ==> has_char_of(before.push(c), class),
{
    let after = before.push(c);
    if all_chars_of(before, class) && class.contains(c) {
        assert forall|i: int| 0 <= i < after.len() implies class.contains(#[trigger] after[i]) by {
            if i < before.len() {
                assert(after[i] == before[i]);
            }
        }
    }
    if has_char_of(before, class) {
        let i = choose|i: int| 0 <= i < before.len() && class.contains(#[trigger] before[i]);
        assert(after[i] == before[i]);
    } else if class.contains(c) {
        assert(after[before.len() as int] == c);
    }
}

/// A class that grows at its end keeps its characters and gains the new
/// ones.
proof fn lemma_grow(text: Seq<char>, class: Seq<char>, more: Seq<char>)
    ensures
        all_chars_of(text, class) ==> all_chars_of(text, class + more),
        all_chars_of(more, class + more),
{
    let both = class + more;
    assert forall|c: char| class.contains(c) implies both.contains(c) by {
        let j = choose|j: int| 0 <= j < class.len() && class[j] == c;
        assert(both[j] == c);
    }
    assert forall|i: int| 0 <= i < more.len() implies both.contains(#[trigger] more[i]) by {
        assert(both[class.len() + i] == more[i]);
    }
}

/// Draws one character of `class` for the password and adds the class to
/// the pool of characters.
fn draw_from_class(
    class: &str,
    password: &mut Vec<char>,
    chars: &mut Vec<char>,
    rng: &mut rand::rngs::ThreadRng,
)
    requires
        class@.len() > 0,
        all_chars_of(old(password)@, old(chars)@),
    ensures
        final(chars)@ == old(chars)@ + class@,
        final(password)@.len() == old(password)@.len() + 1,
        all_chars_of(final(password)@, final(chars)@),
        has_char_of(final(password)@, class@),
        forall|other: Seq<char>| #[trigger]
            has_char_of(old(password)@, other) ==> has_char_of(final(password)@, other),
{
    let ghost before = password@;
    let ghost pool_before = chars@;
    let letters = chars_of(class);
    let c = choose_one(letters.as_slice(), rng).unwrap();
    password.push(c);
    chars.extend_from_slice(letters.as_slice());
    proof {
        lemma_grow(before, pool_before, class@);
        lemma_push(before, c, pool_before + class@);
        lemma_push(before, c, class@);
        assert forall|other: Seq<char>| #[trigger]
            has_char_of(before, other) implies has_char_of(password@, other) by {
            lemma_push(before, c, other);
        }
    }
}

/// Generates a random password.
///
/// One character is drawn from each chosen class, then `length` more from
/// all chosen classes together, and the whole is shuffled. So the password
/// holds `length` characters and one more for each chosen class, all of them
/// from the chosen classes, and at least one from each.
///
/// With no class chosen there is nothing to draw from: then `length` must
/// be 0, and the password is empty.
pub fn process_genpass(
    length: u8,
    uppercase: bool,
    lowercase: bool,
    number: bool,
    symbol: bool,
) -> (password: String)
    requires
        length == 0 || uppercase || lowercase || number || symbol,
    ensures
        password@.len() == length + class_count(uppercase, lowercase, number, symbol),
        all_chars_of(password@, pool(uppercase, lowercase, number, symbol)),
        uppercase ==> has_char_of(password@, UPPER@),
        lowercase ==> has_char_of(password@, LOWER@),
        number ==> has_char_of(password@, NUMBER@),
        symbol ==> has_char_of(password@, SYMBOL@),
{
    let mut rng = thread_rng();
    let mut password: Vec<char> = Vec::new();
    let mut chars: Vec<char> = Vec::new();

    proof {
        reveal_strlit("ABCDEFGHIJKLMNOPQRSTUVWXYZ");
        reveal_strlit("abcdefghijklmnopqrstuvwxyz");
        reveal_strlit("0123456789");
        reveal_strlit("!@#$%^&*_");
    }

    if uppercase {
        draw_from_class(UPPER, &mut password, &mut chars, &mut rng);
    }
    if lowercase {
        draw_from_class(LOWER, &mut password, &mut chars, &mut rng);
    }
    if number {
        draw_from_class(NUMBER, &mut password, &mut chars, &mut rng);
    }
    if symbol {
        draw_from_class(SYMBOL, &mut password, &mut chars, &mut rng);
    }
    let ghost all = pool(uppercase, lowercase, number, symbol);
    let ghost classes = class_count(uppercase, lowercase, number, symbol);
    assert(chars@ =~= all);

    let mut drawn: u8 = 0;
    while drawn < length
        invariant
            drawn <= length,
            chars@ == all,
            length == 0 || all.len() > 0,
            password@.len() == classes + drawn,
            all_chars_of(password@, all),
            uppercase ==> has_char_of(password@, UPPER@),
            lowercase ==> has_char_of(password@, LOWER@),
            number ==> has_char_of(password@, NUMBER@),
            symbol ==> has_char_of(password@, SYMBOL@),
        decreases length - drawn,
    {
        let ghost before = password@;
        let c = choose_one(chars.as_slice(), &mut rng).unwrap();
        password.push(c);
        proof {
            lemma_push(before, c, all);
            lemma_push(before, c, UPPER@);
            lemma_push(before, c, LOWER@);
            lemma_push(before, c, NUMBER@);
            lemma_push(before, c, SYMBOL@);
        }
        drawn += 1;
    }

    let ghost before = password@;
    shuffle(&mut password, &mut rng);
    proof {
        lemma_same_elements(before, password@, all);
        lemma_same_elements(before, password@, UPPER@);
        lemma_same_elements(before, password@, LOWER@);
        lemma_same_elements(before, password@, NUMBER@);
        lemma_same_elements(before, password@, SYMBOL@);
    }
    string_of(&password)
}

} // verus!
