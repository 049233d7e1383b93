//! The body of a deck: card ids in decimal notation, separated by white
//! space.

use vstd::prelude::*;
use crate::text::{
    all_digits, chars_of, decimal_int, decimal_nat, digits_value, lemma_decimal_nat_digits,
    lemma_decimal_nat_value,
    lemma_digits_value_prefix,
};

verus! {

/// Whether `c` is white space: a character with the Unicode property
/// `White_Space`.
pub open spec fn is_whitespace(c: char) -> bool {
    let u = c as u32;
    ||| 0x09 <= u <= 0x0D
    ||| u == 0x20
    ||| u == 0x85
    ||| u == 0xA0
    ||| u == 0x1680
    ||| 0x2000 <= u <= 0x200A
    ||| u == 0x2028
    ||| u == 0x2029
    ||| u == 0x202F
    ||| u == 0x205F
    ||| u == 0x3000
}

/// Length of the longest prefix of `text` that holds no white space.
pub open spec fn first_word_len(text: Seq<char>) -> nat
    decreases text.len(),
{
    if text.len() == 0 || is_whitespace(text[0]) {
        0
    } else {
        1 + first_word_len(text.drop_first())
    }
}

/// The words of `text`: its longest runs of characters that are not white
/// space, in order. White space before, between and after them is dropped.
pub open spec fn words(text: Seq<char>) -> Seq<Seq<char>>
    decreases text.len(),
{
    let n = first_word_len(text);
    if text.len() == 0 {
        Seq::empty()
    } else if is_whitespace(text[0]) {
        words(text.drop_first())
    } else if 0 < n <= text.len() {
        seq![text.take(n as int)] + words(text.skip(n as int))
    } else {
        Seq::empty()
    }
}

/// The card id that `word` writes: an optional sign, `+` or `-`, then one or
/// more decimal digits, whose value lies in the range of `i32`. `None` for
/// any other word.
pub open spec fn parse_id(word: Seq<char>) -> Option<int> {
    let signed = word.len() > 0 && (word[0] == '-' || word[0] == '+');
    let digits = if signed {
        word.drop_first()
    } else {
        word
    };
    let magnitude = digits_value(digits) as int;
    let value = if word.len() > 0 && word[0] == '-' {
        -magnitude
    } else {
        magnitude
    };
    if digits.len() > 0 && all_digits(digits) && i32::MIN <= value <= i32::MAX {
        Some(value)
    } else {
        None
    }
}

/// The card ids that a deck body lists, in order, or `None` where one of its
/// words is no card id.
pub open spec fn deck_ids(body: Seq<char>) -> Option<Seq<int>> {
    let listed = words(body);
    if forall|i: int| 0 <= i < listed.len() ==> (#[trigger] parse_id(listed[i])) is Some {
        Some(Seq::new(listed.len(), |i: int| parse_id(listed[i])->0))
    } else {
        None
    }
}

/// The texts of a sequence of character vectors, in order.
pub open spec fn word_views(list: Seq<Vec<char>>) -> Seq<Seq<char>> {
    Seq::new(list.len(), |i: int| list[i]@)
}

/// The numbers of a sequence of ids, in order.
pub open spec fn id_values(ids: Seq<i32>) -> Seq<int> {
    Seq::new(ids.len(), |i: int| ids[i] as int)
}

/// Whether `c` is white space.
pub fn char_is_whitespace(c: char) -> (b: bool)
    ensures
        b == is_whitespace(c),
{
    let u: u32 = c as u32;
    (0x09 <= u && u <= 0x0D) || u == 0x20 || u == 0x85 || u == 0xA0 || u == 0x1680 || (0x2000 <= u
        && u <= 0x200A) || u == 0x2028 || u == 0x2029 || u == 0x202F || u == 0x205F || u == 0x3000
}

/// A word's length is at most the text's, and a text that starts with a
/// character that is not white space starts with a word.
pub proof fn lemma_first_word_len(text: Seq<char>)
    ensures
        first_word_len(text) <= text.len(),
        text.len() > 0 && !is_whitespace(text[0]) ==> first_word_len(text) > 0,
        forall|i: int| 0 <= i < first_word_len(text) ==> !is_whitespace(#[trigger] text[i]),
        first_word_len(text) < text.len() ==> is_whitespace(text[first_word_len(text) as int]),
    decreases text.len(),
{
    if text.len() > 0 && !is_whitespace(text[0]) {
        let rest = text.drop_first();
        lemma_first_word_len(rest);
        assert forall|i: int| 0 <= i < first_word_len(text) implies !is_whitespace(
            #[trigger] text[i],
        ) by {
            if i > 0 {
                assert(text[i] == rest[i - 1]);
            }
        }
        if first_word_len(text) < text.len() {
            assert(text[first_word_len(text) as int] == rest[first_word_len(rest) as int]);
        }
    }
}

/// Every word holds at least one character and no white space.
pub proof fn lemma_words_are_runs(text: Seq<char>)
    ensures
        forall|i: int, k: int|
            0 <= i < words(text).len() && 0 <= k < words(text)[i].len() ==> !is_whitespace(
                #[trigger] words(text)[i][k],
            ),
        forall|i: int| 0 <= i < words(text).len() ==> (#[trigger] words(text)[i]).len() > 0,
    decreases text.len(),
{
    if text.len() == 0 {
        assert(words(text).len() == 0);
    } else if is_whitespace(text[0]) {
        lemma_words_are_runs(text.drop_first());
        assert(words(text) == words(text.drop_first()));
    } else {
        lemma_first_word_len(text);
        let n = first_word_len(text) as int;
        let rest = words(text.skip(n));
        lemma_words_are_runs(text.skip(n));
        assert(words(text) == seq![text.take(n)] + rest);
        assert forall|i: int, k: int|
            0 <= i < words(text).len() && 0 <= k < words(text)[i].len() implies !is_whitespace(
            #[trigger] words(text)[i][k],
        ) by {
            if i == 0 {
                assert(words(text)[0] == text.take(n));
                assert(text.take(n)[k] == text[k]);
            } else {
                assert(words(text)[i] == rest[i - 1]);
            }
        }
        assert forall|i: int| 0 <= i < words(text).len() implies (#[trigger] words(text)[i]).len()
            > 0 by {
            if i > 0 {
                assert(words(text)[i] == rest[i - 1]);
            }
        }
    }
}

/// A text without white space is one word, or none where it is empty.
pub proof fn lemma_word_alone(text: Seq<char>)
    requires
        forall|i: int| 0 <= i < text.len() ==> !is_whitespace(#[trigger] text[i]),
    ensures
        words(text) == if text.len() == 0 {
            Seq::<Seq<char>>::empty()
        } else {
            seq![text]
        },
{
    if text.len() > 0 {
        lemma_first_word_is_run(text, text.len() as int);
        assert(text.take(text.len() as int) =~= text);
        assert(text.skip(text.len() as int) =~= Seq::<char>::empty());
        assert(words(Seq::<char>::empty()) =~= Seq::<Seq<char>>::empty());
        assert(words(text) =~= seq![text]);
    }
}

/// A run of characters that are not white space, ended by white space or by
/// the end of the text, is the first word.
proof fn lemma_first_word_is_run(text: Seq<char>, n: int)
    requires
        0 <= n <= text.len(),
        forall|i: int| 0 <= i < n ==> !is_whitespace(#[trigger] text[i]),
        n < text.len() ==> is_whitespace(text[n]),
    ensures
        first_word_len(text) == n,
    decreases n,
{
    if n > 0 {
        let rest = text.drop_first();
        assert forall|i: int| 0 <= i < n - 1 implies !is_whitespace(#[trigger] rest[i]) by {
            assert(rest[i] == text[i + 1]);
        }
        lemma_first_word_is_run(rest, n - 1);
    }
}

/// Splits `text` into its words.
pub fn split_whitespace(text: &Vec<char>) -> (list: Vec<Vec<char>>)
    ensures
        word_views(list@) == words(text@),
{
    let mut list: Vec<Vec<char>> = Vec::new();
    let mut i: usize = 0;
    assert(text@.skip(0) =~= text@);
    assert(word_views(list@) + words(text@.skip(0)) =~= words(text@));
    while i < text.len()
        invariant
            i <= text.len(),
            word_views(list@) + words(text@.skip(i as int)) == words(text@),
        decreases text.len() - i,
    {
        let ghost rest = text@.skip(i as int);
        if char_is_whitespace(text[i]) {
            assert(rest.drop_first() =~= text@.skip(i + 1));
            i += 1;
        } else {
            let mut word: Vec<char> = Vec::new();
            let mut j: usize = i;
            while j < text.len() && !char_is_whitespace(text[j])
                invariant
                    i <= j <= text.len(),
                    word@ == text@.subrange(i as int, j as int),
                    forall|k: int| i <= k < j ==> !is_whitespace(#[trigger] text[k]),
                decreases text.len() - j,
            {
                word.push(text[j]);
                j += 1;
                assert(word@ =~= text@.subrange(i as int, j as int));
            }
            proof {
                assert forall|k: int| 0 <= k < j - i implies !is_whitespace(#[trigger] rest[k]) by {
                    assert(rest[k] == text[i + k]);
                }
                lemma_first_word_is_run(rest, j - i);
                assert(rest.take(j - i) =~= word@);
                assert(rest.skip(j - i) =~= text@.skip(j as int));
            }
            let ghost before = word_views(list@);
            list.push(word);
            assert(word_views(list@) =~= before + seq![word@]);
            i = j;
        }
    }
    assert(text@.skip(i as int) =~= Seq::<char>::empty());
    list
}

/// Reading what was written gives the number back: the decimal notation of
/// every `i32` is a card id, and the id is that number.
pub proof fn lemma_decimal_round_trip(i: int)
    requires
        i32::MIN <= i <= i32::MAX,
    ensures
        parse_id(decimal_int(i)) == Some(i),
{
    let word = decimal_int(i);
    if i < 0 {
        let digits = decimal_nat((-i) as nat);
        lemma_decimal_nat_value((-i) as nat);
        lemma_decimal_nat_digits((-i) as nat);
        assert(word[0] == '-');
        assert(word.drop_first() =~= digits);
    } else {
        lemma_decimal_nat_value(i as nat);
        lemma_decimal_nat_digits(i as nat);
        assert('0' <= word[0] <= '9');
    }
}

/// The magnitude of the least `i32`.
const MAX_MAGNITUDE: i64 = 2147483648;

/// Reads `word` as a card id.
pub fn parse_card_id(word: &Vec<char>) -> (id: Option<i32>)
    ensures
        match id {
            Some(value) => parse_id(word@) == Some(value as int),
            None => parse_id(word@) is None,
        },
{
    let n: usize = word.len();
    if n == 0 {
        return None;
    }
    let negative: bool = word[0] == '-';
    let start: usize = if word[0] == '-' || word[0] == '+' {
        1
    } else {
        0
    };
    let ghost digits = word@.skip(start as int);
    assert(start == 1 ==> digits =~= word@.drop_first());
    assert(start == 0 ==> digits =~= word@);
    let mut magnitude: i64 = 0;
    let mut k: usize = start;
    assert(digits.take(0) =~= Seq::<char>::empty());
    while k < n
        invariant
            start <= k <= n,
            0 < n == word.len(),
            digits == word@.skip(start as int),
            digits == if word[0] == '-' || word[0] == '+' {
                word@.drop_first()
            } else {
                word@
            },
            all_digits(digits.take(k - start)),
            magnitude == digits_value(digits.take(k - start)),
            0 <= magnitude <= MAX_MAGNITUDE,
        decreases n - k,
    {
        let c: char = word[k];
        assert(digits[k - start] == c);
        if c < '0' || c > '9' {
            assert(!all_digits(digits));
            return None;
        }
        let u: u32 = c as u32;
        assert('0' as u32 == 48);
        let ghost shorter = digits.take(k - start);
        let ghost longer = digits.take(k + 1 - start);
        assert(longer.drop_last() =~= shorter);
        assert(longer.last() == word[k as int]);
        magnitude = magnitude * 10 + (u - 48) as i64;
        if magnitude > MAX_MAGNITUDE {
            proof {
                assert(magnitude == digits_value(longer));
                lemma_digits_value_prefix(digits, k + 1 - start);
            }
            return None;
        }
        assert forall|i: int| 0 <= i < longer.len() implies '0' <= #[trigger] longer[i] <= '9' by {
            if i < shorter.len() {
                assert(longer[i] == shorter[i]);
            }
        }
        k += 1;
    }
    assert(digits.take(n - start) =~= digits);
    if start == n {
        return None;
    }
    let value: i64 = if negative {
        -magnitude
    } else {
        magnitude
    };
    if value > 2147483647 {
        return None;
    }
    Some(value as i32)
}

/// Reads a deck body as the list of its card ids: `None` where one of its
/// words is no card id.
pub fn parse_deck_ids(body: &str) -> (ids: Option<Vec<i32>>)
    ensures
        match ids {
            Some(list) => deck_ids(body@) == Some(id_values(list@)),
            None => deck_ids(body@) is None,
        },
{
    let chars = chars_of(body);
    let listed = split_whitespace(&chars);
    let ghost texts = words(body@);
    let mut ids: Vec<i32> = Vec::new();
    let mut i: usize = 0;
    while i < listed.len()
        invariant
            i <= listed.len(),
            texts == words(body@),
            word_views(listed@) == texts,
            ids.len() == i,
            forall|k: int| 0 <= k < i ==> parse_id(texts[k]) == Some(#[trigger] ids[k] as int),
        decreases listed.len() - i,
    {
        assert(texts[i as int] == listed[i as int]@);
        match parse_card_id(&listed[i]) {
            Some(id) => {
                ids.push(id);
            },
            None => {
                return None;
            },
        }
        i += 1;
    }
    assert(texts.len() == listed.len());
    assert forall|k: int| 0 <= k < texts.len() implies (#[trigger] parse_id(texts[k])) is Some by {
        assert(parse_id(texts[k]) == Some(ids[k] as int));
    }
    assert(id_values(ids@) =~= Seq::new(texts.len(), |k: int| parse_id(texts[k])->0));
    Some(ids)
}

} // verus!
