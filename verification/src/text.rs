//! Text rules: words, and the excerpt of a post's content.

use vstd::prelude::*;
use vstd::std_specs::iter::IteratorSpec;
use vstd::string::*;

verus! {

/// How many words of its content a post's excerpt holds at most.
pub const EXCERPT_WORDS: usize = 55;

/// Whether two string slices hold the same characters.
pub fn same_text(a: &str, b: &str) -> (r: bool)
    ensures
        r == (a@ == b@),
{
    let x = String::from_str(a);
    let y = String::from_str(b);
    x == y
}

/// Whether a character is white space: a character with the Unicode property
/// `White_Space`. These are tab, line feed, vertical tab, form feed, carriage
/// return, the space, next line, the no-break space, the Ogham space mark,
/// the spaces of fixed width from en quad to hair space, the line and the
/// paragraph separator, the narrow no-break space, the medium mathematical
/// space and the ideographic space.
pub open spec fn is_whitespace(c: char) -> bool {
    let n = c as u32;
    ||| 0x09 <= n <= 0x0D
    ||| n == 0x20
    ||| n == 0x85
    ||| n == 0xA0
    ||| n == 0x1680
    ||| 0x2000 <= n <= 0x200A
    ||| n == 0x2028
    ||| n == 0x2029
    ||| n == 0x202F
    ||| n == 0x205F
    ||| n == 0x3000
}

/// Where the white space that starts at `i` ends: the first place from `i` on
/// that holds no white space, or the end of `s`.
pub open spec fn blank_end(s: Seq<char>, i: int) -> int
    decreases s.len() - i,
{
    if 0 <= i < s.len() && is_whitespace(s[i]) {
        blank_end(s, i + 1)
    } else {
        i
    }
}

/// Where the word that starts at `i` ends: the first place from `i` on that
/// holds white space, or the end of `s`.
pub open spec fn word_end(s: Seq<char>, i: int) -> int
    decreases s.len() - i,
{
    if 0 <= i < s.len() && !is_whitespace(s[i]) {
        word_end(s, i + 1)
    } else {
        i
    }
}

/// The words of `s` from the place `i` on: the maximal runs of characters
/// that are no white space, in their order.
pub open spec fn words_from(s: Seq<char>, i: int) -> Seq<Seq<char>>
    decreases s.len() - i,
{
    let start = blank_end(s, i);
    let end = word_end(s, start);
    if 0 <= i <= start < end <= s.len() {
        seq![s.subrange(start, end)] + words_from(s, end)
    } else {
        Seq::empty()
    }
}

/// The words of `s`: the maximal runs of characters that are no white space.
/// White space of any kind and length separates two words, and white space
/// at either end of `s` belongs to no word.
pub open spec fn words(s: Seq<char>) -> Seq<Seq<char>> {
    words_from(s, 0)
}

/// The words put together with one space between neighbours.
pub open spec fn join_words(words: Seq<Seq<char>>) -> Seq<char>
    decreases words.len(),
{
    if words.len() == 0 {
        Seq::empty()
    } else if words.len() == 1 {
        words[0]
    } else {
        join_words(words.drop_last()) + seq![' '] + words.last()
    }
}

/// The excerpt of a content: the content itself where it has fewer than 55
/// words, and else its first 55 words, joined by single spaces.
pub open spec fn excerpt_of(content: Seq<char>) -> Seq<char> {
    if words(content).len() < EXCERPT_WORDS {
        content
    } else {
        join_words(words(content).take(EXCERPT_WORDS as int))
    }
}

/// White space that starts inside `s` ends inside `s` or at its end, holds
/// nothing but white space, and is followed by none.
pub proof fn lemma_blank_end(s: Seq<char>, i: int)
    requires
        0 <= i <= s.len(),
    ensures
        i <= blank_end(s, i) <= s.len(),
        forall|j: int| i <= j < blank_end(s, i) ==> is_whitespace(#[trigger] s[j]),
        blank_end(s, i) < s.len() ==> !is_whitespace(s[blank_end(s, i)]),
    decreases s.len() - i,
{
    if i < s.len() && is_whitespace(s[i]) {
        lemma_blank_end(s, i + 1);
    }
}

/// A word that starts inside `s` ends inside `s` or at its end, holds no
/// white space, and is followed by white space or nothing. It is not empty
/// where it starts at a character that is no white space.
pub proof fn lemma_word_end(s: Seq<char>, i: int)
    requires
        0 <= i <= s.len(),
    ensures
        i <= word_end(s, i) <= s.len(),
        forall|j: int| i <= j < word_end(s, i) ==> !is_whitespace(#[trigger] s[j]),
        word_end(s, i) < s.len() ==> is_whitespace(s[word_end(s, i)]),
        i < s.len() && !is_whitespace(s[i]) ==> i < word_end(s, i),
    decreases s.len() - i,
{
    if i < s.len() && !is_whitespace(s[i]) {
        lemma_word_end(s, i + 1);
    }
}

/// The words from a place on are the word that follows the white space
/// there, and then the words from its end on; there is none where only white
/// space follows.
pub proof fn lemma_words_from(s: Seq<char>, i: int)
    requires
        0 <= i <= s.len(),
    ensures
        blank_end(s, i) >= s.len() ==> words_from(s, i) == Seq::<Seq<char>>::empty(),
        blank_end(s, i) < s.len() ==> {
            &&& blank_end(s, i) < word_end(s, blank_end(s, i)) <= s.len()
            &&& words_from(s, i) == seq![
                s.subrange(blank_end(s, i), word_end(s, blank_end(s, i))),
            ] + words_from(s, word_end(s, blank_end(s, i)))
        },
{
    lemma_blank_end(s, i);
    lemma_word_end(s, blank_end(s, i));
}

/// No word is empty and no word holds white space.
pub proof fn law_words_hold_no_white_space(s: Seq<char>, i: int)
    requires
        0 <= i <= s.len(),
    ensures
        forall|k: int, j: int|
            0 <= k < words_from(s, i).len() && 0 <= j < words_from(s, i)[k].len()
                ==> !is_whitespace(#[trigger] words_from(s, i)[k][j]),
        forall|k: int|
            0 <= k < words_from(s, i).len() ==> (#[trigger] words_from(s, i)[k]).len() > 0,
    decreases s.len() - i,
{
    lemma_words_from(s, i);
    lemma_blank_end(s, i);
    let start = blank_end(s, i);
    if start < s.len() {
        lemma_word_end(s, start);
        let end = word_end(s, start);
        let first = s.subrange(start, end);
        let rest = words_from(s, end);
        law_words_hold_no_white_space(s, end);
        let all = words_from(s, i);
        assert(all == seq![first] + rest);
        assert forall|k: int, j: int| 0 <= k < all.len() && 0 <= j < all[k].len() implies
            !is_whitespace(#[trigger] all[k][j]) by {
            if k == 0 {
                assert(all[0] == first);
                assert(first[j] == s[start + j]);
            } else {
                assert(all[k] == rest[k - 1]);
            }
        }
        assert forall|k: int| 0 <= k < all.len() implies (#[trigger] all[k]).len() > 0 by {
            if k == 0 {
                assert(all[0] == first);
            } else {
                assert(all[k] == rest[k - 1]);
            }
        }
    }
}

/// A content of fewer than 55 words is its own excerpt, white space and all.
pub proof fn law_short_content_is_its_excerpt(content: Seq<char>)
    requires
        words(content).len() < EXCERPT_WORDS,
    ensures
        excerpt_of(content) == content,
{
}

/// The excerpt of a content of 55 words or more is its first 55 words with
/// one space between neighbours, whatever white space parts them in the
/// content: it holds 54 spaces and no other white space.
pub proof fn law_long_content_excerpt(content: Seq<char>)
    requires
        words(content).len() >= EXCERPT_WORDS,
    ensures
        excerpt_of(content) == join_words(words(content).take(EXCERPT_WORDS as int)),
        words(content).take(EXCERPT_WORDS as int).len() == EXCERPT_WORDS,
        forall|k: int, j: int|
            0 <= k < EXCERPT_WORDS && 0 <= j < words(content)[k].len() ==> !is_whitespace(
                #[trigger] words(content)[k][j],
            ),
        forall|k: int| 0 <= k < EXCERPT_WORDS ==> (#[trigger] words(content)[k]).len() > 0,
{
    law_words_hold_no_white_space(content, 0);
}

/// Says whether a character is white space.
pub fn is_space(c: char) -> (space: bool)
    ensures
        space == is_whitespace(c),
{
    let n = c as u32;
    (0x09 <= n && n <= 0x0D) || n == 0x20 || n == 0x85 || n == 0xA0 || n == 0x1680 || (0x2000
        <= n && n <= 0x200A) || n == 0x2028 || n == 0x2029 || n == 0x202F || n == 0x205F || n
        == 0x3000
}

/// The characters of a text, one by one.
fn chars_of(text: &str) -> (chars: Vec<char>)
    ensures
        chars@ == text@,
{
    broadcast use vstd::string::group_string_axioms;

    let mut chars: Vec<char> = Vec::new();
    let mut iter = text.chars();
    let ghost mut taken: int = 0;
    assert(text@.skip(0) == text@);
    loop
        invariant_except_break
            iter.obeys_prophetic_iter_laws(),
            iter.remaining() == text@.skip(taken),
        invariant
            0 <= taken <= text@.len(),
            chars@ == text@.take(taken),
        ensures
            taken == text@.len(),
        decreases text@.len() - taken,
    {
        let ghost rest = text@.skip(taken);
        match iter.next() {
            None => {
                assert(rest.len() == 0);
                break ;
            },
            Some(c) => {
                assert(rest.len() > 0);
                assert(c == rest[0]);
                assert(rest.drop_first() == text@.skip(taken + 1));
                chars.push(c);
                assert(chars@ == text@.take(taken + 1));
                proof {
                    taken = taken + 1;
                }
            },
        }
    }
    assert(text@.take(text@.len() as int) == text@);
    chars
}

/// Finds where the white space that starts at `from` ends.
fn skip_blanks(chars: &Vec<char>, from: usize) -> (start: usize)
    requires
        from <= chars.len(),
    ensures
        start == blank_end(chars@, from as int),
        from <= start <= chars.len(),
{
    let mut i = from;
    while i < chars.len() && is_space(chars[i])
        invariant
            from <= i <= chars.len(),
            blank_end(chars@, from as int) == blank_end(chars@, i as int),
        decreases chars.len() - i,
    {
        i = i + 1;
    }
    i
}

/// Finds where the word that starts at `from` ends.
fn skip_word(chars: &Vec<char>, from: usize) -> (end: usize)
    requires
        from <= chars.len(),
    ensures
        end == word_end(chars@, from as int),
        from <= end <= chars.len(),
{
    let mut i = from;
    while i < chars.len() && !is_space(chars[i])
        invariant
            from <= i <= chars.len(),
            word_end(chars@, from as int) == word_end(chars@, i as int),
        decreases chars.len() - i,
    {
        i = i + 1;
    }
    i
}

/// The words that stand at the given places of `s`.
pub open spec fn words_at(s: Seq<char>, spans: Seq<(usize, usize)>) -> Seq<Seq<char>> {
    Seq::new(spans.len(), |k: int| s.subrange(spans[k].0 as int, spans[k].1 as int))
}

/// Finds the first words of a text, `limit` of them at most, and says where
/// each starts and ends.
fn first_spans(chars: &Vec<char>, limit: usize) -> (spans: Vec<(usize, usize)>)
    ensures
        spans@.len() <= limit,
        forall|k: int|
            0 <= k < spans@.len() ==> (#[trigger] spans@[k]).0 <= spans@[k].1 <= chars@.len(),
        spans@.len() < limit ==> words(chars@) == words_at(chars@, spans@),
        spans@.len() == limit ==> words(chars@).len() >= limit && words(chars@).take(
            limit as int,
        ) == words_at(chars@, spans@),
{
    let ghost s = chars@;
    let mut spans: Vec<(usize, usize)> = Vec::new();
    let mut i: usize = 0;
    let mut done = false;
    assert(words_at(s, spans@) + words_from(s, 0) =~= words(s));
    while spans.len() < limit && !done
        invariant
            s == chars@,
            i <= chars.len(),
            spans@.len() <= limit,
            forall|k: int|
                0 <= k < spans@.len() ==> (#[trigger] spans@[k]).0 <= spans@[k].1 <= s.len(),
            words(s) == words_at(s, spans@) + words_from(s, i as int),
            done ==> words_from(s, i as int) == Seq::<Seq<char>>::empty(),
        decreases
                (if done {
                    0
                } else {
                    chars.len() - i + 1
                }),
    {
        proof {
            lemma_words_from(s, i as int);
        }
        let start = skip_blanks(chars, i);
        if start >= chars.len() {
            done = true;
        } else {
            let end = skip_word(chars, start);
            let ghost before = spans@;
            spans.push((start, end));
            assert(words_at(s, spans@) =~= words_at(s, before).push(
                s.subrange(start as int, end as int),
            ));
            assert(words_at(s, spans@) + words_from(s, end as int) =~= words_at(s, before) + (
            seq![s.subrange(start as int, end as int)] + words_from(s, end as int)));
            i = end;
        }
    }
    proof {
        let found = words_at(s, spans@);
        if spans@.len() < limit {
            assert(found + Seq::<Seq<char>>::empty() =~= found);
        } else {
            assert((found + words_from(s, i as int)).take(limit as int) =~= found);
        }
    }
    spans
}

/// The excerpt of a post's content: the content itself where it has fewer
/// than 55 words, and else its first 55 words with one space between
/// neighbours. A word is a run of characters that are no white space.
pub fn excerpt(content: &str) -> (r: String)
    ensures
        r@ == excerpt_of(content@),
{
    let chars = chars_of(content);
    let spans = first_spans(&chars, EXCERPT_WORDS);
    if spans.len() < EXCERPT_WORDS {
        return content.to_owned();
    }
    let ghost found = words_at(content@, spans@);
    let mut text = String::new();
    let mut k: usize = 0;
    assert(join_words(found.take(0)) =~= Seq::<char>::empty());
    while k < spans.len()
        invariant
            k <= spans@.len(),
            chars@ == content@,
            found == words_at(content@, spans@),
            forall|j: int|
                0 <= j < spans@.len() ==> (#[trigger] spans@[j]).0 <= spans@[j].1
                    <= content@.len(),
            text@ == join_words(found.take(k as int)),
        decreases spans@.len() - k,
    {
        let (start, end) = spans[k];
        let ghost so_far = text@;
        if k > 0 {
            proof {
                reveal_strlit(" ");
            }
            text.append(" ");
            assert(text@ =~= so_far + seq![' ']);
        }
        text.append(content.substring_char(start, end));
        proof {
            let now = found.take(k + 1);
            assert(now.drop_last() =~= found.take(k as int));
            assert(now.last() == content@.subrange(start as int, end as int));
            if k == 0 {
                assert(text@ =~= now[0]);
            }
        }
        k = k + 1;
    }
    assert(found.take(spans@.len() as int) =~= found);
    text
}

/// The character of a decimal digit.
pub open spec fn digit_char(d: int) -> char {
    if d == 0 {
        '0'
    } else if d == 1 {
        '1'
    } else if d == 2 {
        '2'
    } else if d == 3 {
        '3'
    } else if d == 4 {
        '4'
    } else if d == 5 {
        '5'
    } else if d == 6 {
        '6'
    } else if d == 7 {
        '7'
    } else if d == 8 {
        '8'
    } else {
        '9'
    }
}

/// A number in decimal notation, without leading zeros.
pub open spec fn decimal_of(n: nat) -> Seq<char>
    decreases n,
{
    if n < 10 {
        seq![digit_char(n as int)]
    } else {
        decimal_of(n / 10).push(digit_char((n % 10) as int))
    }
}

/// The text of one decimal digit.
fn digit_text(d: u64) -> (text: &'static str)
    requires
        d < 10,
    ensures
        text@ == seq![digit_char(d as int)],
{
    proof {
        reveal_strlit("0");
        reveal_strlit("1");
        reveal_strlit("2");
        reveal_strlit("3");
        reveal_strlit("4");
        reveal_strlit("5");
        reveal_strlit("6");
        reveal_strlit("7");
        reveal_strlit("8");
        reveal_strlit("9");
    }
    let text = if d == 0 {
        "0"
    } else if d == 1 {
        "1"
    } else if d == 2 {
        "2"
    } else if d == 3 {
        "3"
    } else if d == 4 {
        "4"
    } else if d == 5 {
        "5"
    } else if d == 6 {
        "6"
    } else if d == 7 {
        "7"
    } else if d == 8 {
        "8"
    } else {
        "9"
    };
    assert(text@ =~= seq![digit_char(d as int)]);
    text
}

/// Writes a number in decimal notation.
pub fn decimal(n: u64) -> (text: String)
    ensures
        text@ == decimal_of(n as nat),
    decreases n,
{
    if n < 10 {
        String::from_str(digit_text(n))
    } else {
        let mut text = decimal(n / 10);
        text.append(digit_text(n % 10));
        assert(text@ =~= decimal_of((n / 10) as nat).push(digit_char((n % 10) as int)));
        text
    }
}

/// Puts two texts one after the other.
pub fn joined(head: &str, tail: &str) -> (text: String)
    ensures
        text@ == head@ + tail@,
{
    let mut text = String::from_str(head);
    text.append(tail);
    text
}

} // verus!
