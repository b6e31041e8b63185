//! Rules on the text that the operator types: what counts as white space,
//! how a package list falls into words, and which answer confirms a deletion.

use vstd::prelude::*;

verus! {

/// The views of the items of a sequence, in order.
pub open spec fn views<T: View>(items: Seq<T>) -> Seq<T::V> {
    Seq::new(items.len(), |i: int| items[i]@)
}

/// The characters with the Unicode property `White_Space`.
pub open spec fn is_white_space(c: char) -> bool {
    ||| ('\u{9}' <= c && c <= '\u{d}')
    ||| c == ' '
    ||| c == '\u{85}'
    ||| c == '\u{a0}'
    ||| c == '\u{1680}'
    ||| ('\u{2000}' <= c && c <= '\u{200a}')
    ||| c == '\u{2028}'
    ||| c == '\u{2029}'
    ||| c == '\u{202f}'
    ||| c == '\u{205f}'
    ||| c == '\u{3000}'
}

/// Whether a character is white space.
pub fn white_space(c: char) -> (r: bool)
    ensures
        r == is_white_space(c),
{
    ('\u{9}' <= c && c <= '\u{d}') || c == ' ' || c == '\u{85}' || c == '\u{a0}' || c
        == '\u{1680}' || ('\u{2000}' <= c && c <= '\u{200a}') || c == '\u{2028}' || c
        == '\u{2029}' || c == '\u{202f}' || c == '\u{205f}' || c == '\u{3000}'
}

/// Where the run of characters that are not white space, begun at `i`, ends:
/// the first position from `i` on that holds white space, or the length.
pub open spec fn word_end(s: Seq<char>, i: int) -> int
    decreases s.len() - i,
{
    if 0 <= i < s.len() && !is_white_space(s[i]) {
        word_end(s, i + 1)
    } else {
        i
    }
}

/// A word ends within the text, after at least one character if it begins
/// on one that is not white space; it holds no white space, and white space
/// or the end of the text follows it.
pub proof fn word_end_bounds(s: Seq<char>, i: int)
    requires
        0 <= i <= s.len(),
    ensures
        i <= word_end(s, i) <= s.len(),
        i < s.len() && !is_white_space(s[i]) ==> i < word_end(s, i),
        forall|k: int| i <= k < word_end(s, i) ==> !is_white_space(#[trigger] s[k]),
        word_end(s, i) < s.len() ==> is_white_space(s[word_end(s, i)]),
    decreases s.len() - i,
{
    if i < s.len() && !is_white_space(s[i]) {
        word_end_bounds(s, i + 1);
    }
}

/// The words of a text from position `i` on.
pub open spec fn words_from(s: Seq<char>, i: int) -> Seq<Seq<char>>
    decreases s.len() - i,
{
    if i < 0 || i >= s.len() {
        Seq::empty()
    } else if is_white_space(s[i]) {
        words_from(s, i + 1)
    } else {
        proof {
            word_end_bounds(s, i);
        }
        seq![s.subrange(i, word_end(s, i))] + words_from(s, word_end(s, i))
    }
}

/// The words of a text: its longest runs of characters that are not white
/// space, in the order in which they stand.
pub open spec fn words(s: Seq<char>) -> Seq<Seq<char>> {
    words_from(s, 0)
}

/// Splits a text at white space into its words.
pub fn split_whitespace(text: &str) -> (parts: Vec<String>)
    ensures
        views(parts@) == words(text@),
{
    let n = text.unicode_len();
    let mut parts: Vec<String> = Vec::new();
    let mut i: usize = 0;
    while i < n
        invariant
            n == text@.len(),
            i <= n,
            views(parts@) + words_from(text@, i as int) == words(text@),
        decreases n - i,
    {
        if white_space(text.get_char(i)) {
            i += 1;
        } else {
            let start = i;
            while i < n && !white_space(text.get_char(i))
                invariant
                    n == text@.len(),
                    start <= i <= n,
                    word_end(text@, i as int) == word_end(text@, start as int),
                decreases n - i,
            {
                i += 1;
            }
            let word = text.substring_char(start, i).to_owned();
            let ghost before = views(parts@);
            parts.push(word);
            proof {
                assert(views(parts@) =~= before.push(text@.subrange(start as int, i as int)));
                assert(before.push(text@.subrange(start as int, i as int)) =~= before
                    + seq![text@.subrange(start as int, i as int)]);
            }
        }
    }
    proof {
        assert(views(parts@) + Seq::<Seq<char>>::empty() =~= views(parts@));
    }
    parts
}

/// No word is empty, and no word holds white space.
pub proof fn words_are_solid(s: Seq<char>, i: int)
    requires
        0 <= i <= s.len(),
    ensures
        forall|k: int|
            0 <= k < words_from(s, i).len() ==> (#[trigger] words_from(s, i)[k]).len() > 0,
        forall|k: int, j: int|
            0 <= k < words_from(s, i).len() && 0 <= j < words_from(s, i)[k].len()
                ==> !is_white_space(#[trigger] words_from(s, i)[k][j]),
    decreases s.len() - i,
{
    if i >= s.len() {
        assert(words_from(s, i).len() == 0);
    } else if is_white_space(s[i]) {
        words_are_solid(s, i + 1);
        assert(words_from(s, i) == words_from(s, i + 1));
    } else {
        word_end_bounds(s, i);
        let end = word_end(s, i);
        words_are_solid(s, end);
        let head = seq![s.subrange(i, end)];
        let tail = words_from(s, end);
        assert(words_from(s, i) == head + tail);
        assert forall|k: int| 0 <= k < words_from(s, i).len() implies (#[trigger] words_from(
            s,
            i,
        )[k]).len() > 0 by {
            if k > 0 {
                assert(words_from(s, i)[k] == tail[k - 1]);
            }
        }
        assert forall|k: int, j: int|
            0 <= k < words_from(s, i).len() && 0 <= j < words_from(s, i)[k].len()
                implies !is_white_space(#[trigger] words_from(s, i)[k][j]) by {
            if k > 0 {
                assert(words_from(s, i)[k] == tail[k - 1]);
            } else {
                assert(words_from(s, i)[0][j] == s[i + j]);
            }
        }
    }
}

/// A text without any character that is not white space has no words.
pub proof fn blank_has_no_words(s: Seq<char>, i: int)
    requires
        0 <= i <= s.len(),
        forall|k: int| i <= k < s.len() ==> is_white_space(#[trigger] s[k]),
    ensures
        words_from(s, i).len() == 0,
    decreases s.len() - i,
{
    if i < s.len() {
        blank_has_no_words(s, i + 1);
    }
}

/// Where the white space ends that begins at position `i` of a text.
pub open spec fn leading_end(s: Seq<char>, i: int) -> int
    decreases s.len() - i,
{
    if 0 <= i < s.len() && is_white_space(s[i]) {
        leading_end(s, i + 1)
    } else {
        i
    }
}

/// Where the white space begins that ends before position `j` of a text.
pub open spec fn trailing_start(s: Seq<char>, j: int) -> int
    decreases j,
{
    if 0 < j <= s.len() && is_white_space(s[j - 1]) {
        trailing_start(s, j - 1)
    } else {
        j
    }
}

/// A text without the white space at its start and at its end.
pub open spec fn trimmed(s: Seq<char>) -> Seq<char> {
    let start = leading_end(s, 0);
    let end = trailing_start(s, s.len() as int);
    if start < end {
        s.subrange(start, end)
    } else {
        Seq::empty()
    }
}

/// The white space before a position begins at or before it.
pub proof fn trailing_start_bounds(s: Seq<char>, j: int)
    requires
        0 <= j <= s.len(),
    ensures
        0 <= trailing_start(s, j) <= j,
    decreases j,
{
    if 0 < j && is_white_space(s[j - 1]) {
        trailing_start_bounds(s, j - 1);
    }
}

/// The line that the operator typed, without the white space around it.
pub fn trim(line: &str) -> (r: String)
    ensures
        r@ == trimmed(line@),
{
    let n = line.unicode_len();
    let mut start: usize = 0;
    while start < n && white_space(line.get_char(start))
        invariant
            n == line@.len(),
            start <= n,
            leading_end(line@, start as int) == leading_end(line@, 0),
        decreases n - start,
    {
        start += 1;
    }
    let mut end: usize = n;
    while end > start && white_space(line.get_char(end - 1))
        invariant
            n == line@.len(),
            start <= end <= n,
            trailing_start(line@, end as int) == trailing_start(line@, n as int),
        decreases end,
    {
        end -= 1;
    }
    proof {
        trailing_start_bounds(line@, end as int);
        assert(line@.subrange(start as int, start as int) =~= Seq::<char>::empty());
    }
    line.substring_char(start, end).to_owned()
}

/// The answers that confirm a deletion: the word `yes`, each letter in
/// either case.
pub open spec fn is_yes(answer: Seq<char>) -> bool {
    &&& answer.len() == 3
    &&& (answer[0] == 'y' || answer[0] == 'Y')
    &&& (answer[1] == 'e' || answer[1] == 'E')
    &&& (answer[2] == 's' || answer[2] == 'S')
}

/// Whether an answer confirms a deletion.
pub fn is_confirmation(answer: &str) -> (r: bool)
    ensures
        r == is_yes(answer@),
{
    if answer.unicode_len() != 3 {
        return false;
    }
    let first = answer.get_char(0);
    let second = answer.get_char(1);
    let third = answer.get_char(2);
    (first == 'y' || first == 'Y') && (second == 'e' || second == 'E') && (third == 's' || third
        == 'S')
}

/// The strings of a list, copied.
pub fn copy_texts(texts: &Vec<String>) -> (r: Vec<String>)
    ensures
        views(r@) == views(texts@),
{
    let mut r: Vec<String> = Vec::new();
    let mut i: usize = 0;
    while i < texts.len()
        invariant
            i <= texts.len(),
            r.len() == i,
            forall|j: int| 0 <= j < i ==> r[j]@ == texts[j]@,
        decreases texts.len() - i,
    {
        r.push(texts[i].clone());
        i += 1;
    }
    assert(views(r@) =~= views(texts@));
    r
}

} // verus!
