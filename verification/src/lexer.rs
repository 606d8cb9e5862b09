//! Splitting a line into tokens: the maximal runs of characters that are not
//! whitespace.
use crate::views::{views_are, views_of};
use vstd::prelude::*;

verus! {

/// Whether `c` has the Unicode property `White_Space`.
pub open spec fn is_space(c: char) -> bool {
    let n = c as u32;
    ||| 0x09 <= n <= 0x0D
    ||| n == 0x20
    ||| n == 0x85
    ||| n == 0xA0
    ||| n == 0x1680
    ||| 0x2000 <= n <= 0x200A
    ||| n == 0x2028
    ||| n == 0x2029
    ||| n == 0x202F
    ||| n == 0x205F
    ||| n == 0x3000
}

/// Whether `c` separates tokens.
pub fn is_whitespace(c: char) -> (r: bool)
    ensures
        r == is_space(c),
{
    let n: u32 = c as u32;
    (0x09 <= n && n <= 0x0D) || n == 0x20 || n == 0x85 || n == 0xA0 || n == 0x1680 || (0x2000 <= n
        && n <= 0x200A) || n == 0x2028 || n == 0x2029 || n == 0x202F || n == 0x205F || n == 0x3000
}

/// The end of the run that starts at `i` in `line`: the first position at or
/// after `i` whose character is not of the kind `space` (whitespace, or
/// not), or the length of `line` where there is none.
pub open spec fn run_end(line: Seq<char>, i: int, space: bool) -> int
    decreases line.len() - i,
{
    if 0 <= i < line.len() && is_space(line[i]) == space {
        run_end(line, i + 1, space)
    } else {
        i
    }
}

/// The tokens of `line` that start at or after position `i`, in order: the
/// run of characters that are not whitespace which follows the whitespace
/// at `i`, and then the tokens from where that run ends. For `i` within the
/// line the bounds in the condition hold of themselves, but for `start <
/// end`; they make it plain that the recursion ends.
pub open spec fn tokens_from(line: Seq<char>, i: int) -> Seq<Seq<char>>
    decreases line.len() - i,
{
    let start = run_end(line, i, true);
    let end = run_end(line, start, false);
    if i <= start < end <= line.len() {
        seq![line.subrange(start, end)] + tokens_from(line, end)
    } else {
        Seq::empty()
    }
}

/// The tokens of `line`: its maximal runs of characters that are not
/// whitespace, from left to right.
pub open spec fn tokens_of(line: Seq<char>) -> Seq<Seq<char>> {
    tokens_from(line, 0)
}

/// A run ends between its start and the end of the line, and the character
/// it ends at, if any, is not of the run's kind.
pub proof fn lemma_run_end(line: Seq<char>, i: int, space: bool)
    requires
        0 <= i <= line.len(),
    ensures
        i <= run_end(line, i, space) <= line.len(),
        run_end(line, i, space) < line.len() ==> is_space(line[run_end(line, i, space)]) != space,
        forall|j: int| i <= j < run_end(line, i, space) ==> is_space(#[trigger] line[j]) == space,
    decreases line.len() - i,
{
    if i < line.len() && is_space(line[i]) == space {
        lemma_run_end(line, i + 1, space);
    }
}

/// Every position from which tokens are taken yields tokens that are not
/// empty and hold no whitespace.
pub proof fn lemma_tokens_from_are_words(line: Seq<char>, i: int)
    requires
        0 <= i <= line.len(),
    ensures
        forall|k: int, j: int|
            0 <= k < tokens_from(line, i).len() && 0 <= j < tokens_from(line, i)[k].len()
                ==> !is_space(#[trigger] tokens_from(line, i)[k][j]),
        forall|k: int|
            0 <= k < tokens_from(line, i).len() ==> (#[trigger] tokens_from(line, i)[k]).len() > 0,
    decreases line.len() - i,
{
    let start = run_end(line, i, true);
    lemma_run_end(line, i, true);
    let end = run_end(line, start, false);
    lemma_run_end(line, start, false);
    if start < end {
        lemma_tokens_from_are_words(line, end);
        let tokens = tokens_from(line, i);
        let rest = tokens_from(line, end);
        assert forall|k: int| 0 <= k < tokens.len() implies (#[trigger] tokens[k]).len() > 0
            && forall|j: int| 0 <= j < tokens[k].len() ==> !is_space(#[trigger] tokens[k][j]) by {
            if k > 0 {
                assert(tokens[k] == rest[k - 1]);
            }
        }
    }
}

/// A token is never empty and holds no whitespace.
pub proof fn lemma_tokens_are_words(line: Seq<char>)
    ensures
        forall|k: int, j: int|
            0 <= k < tokens_of(line).len() && 0 <= j < tokens_of(line)[k].len() ==> !is_space(
                #[trigger] tokens_of(line)[k][j],
            ),
        forall|k: int| 0 <= k < tokens_of(line).len() ==> (#[trigger] tokens_of(line)[k]).len() > 0,
{
    lemma_tokens_from_are_words(line, 0);
}

/// A line has no tokens exactly if it holds nothing but whitespace; the
/// empty line is one such.
pub proof fn lemma_blank_line_has_no_tokens(line: Seq<char>)
    ensures
        tokens_of(line).len() == 0 <==> forall|j: int|
            0 <= j < line.len() ==> is_space(#[trigger] line[j]),
{
    let start = run_end(line, 0, true);
    lemma_run_end(line, 0, true);
    lemma_run_end(line, start, false);
}

/// A run ends at `end` if every character from `i` up to `end` is of the
/// run's kind and the character at `end`, if any, is not.
pub proof fn lemma_run_ends_at(line: Seq<char>, i: int, end: int, space: bool)
    requires
        0 <= i <= end <= line.len(),
        forall|j: int| i <= j < end ==> is_space(#[trigger] line[j]) == space,
        end < line.len() ==> is_space(line[end]) != space,
    ensures
        run_end(line, i, space) == end,
    decreases end - i,
{
    if i < end {
        lemma_run_ends_at(line, i + 1, end, space);
    }
}

/// Whitespace before the first token makes no difference: from two
/// positions with nothing but whitespace between them, the same tokens
/// follow.
pub proof fn lemma_tokens_from_skips_whitespace(line: Seq<char>, i: int, k: int)
    requires
        0 <= i <= k <= line.len(),
        forall|j: int| i <= j < k ==> is_space(#[trigger] line[j]),
    ensures
        tokens_from(line, i) == tokens_from(line, k),
{
    let start = run_end(line, k, true);
    lemma_run_end(line, k, true);
    lemma_run_ends_at(line, i, start, true);
}

/// The tokens of `tail` are those that follow `head` in `head + tail`.
pub proof fn lemma_tokens_from_after_prefix(head: Seq<char>, tail: Seq<char>, k: int)
    requires
        0 <= k <= tail.len(),
    ensures
        tokens_from(head + tail, head.len() + k) == tokens_from(tail, k),
    decreases tail.len() - k,
{
    let line = head + tail;
    let start = run_end(tail, k, true);
    lemma_run_end(tail, k, true);
    let end = run_end(tail, start, false);
    lemma_run_end(tail, start, false);
    assert forall|j: int| head.len() <= j < line.len() implies #[trigger] line[j] == tail[j
        - head.len()] by {}
    lemma_run_ends_at(line, head.len() + k, head.len() + start, true);
    lemma_run_ends_at(line, head.len() + start, head.len() + end, false);
    if start < end {
        lemma_tokens_from_after_prefix(head, tail, end);
        assert(line.subrange(head.len() + start, head.len() + end) == tail.subrange(start, end));
    }
}

/// A word, that is a sequence that is not empty and holds no whitespace, is
/// its own and only token.
pub proof fn lemma_word_is_one_token(word: Seq<char>)
    requires
        word.len() > 0,
        forall|j: int| 0 <= j < word.len() ==> !is_space(#[trigger] word[j]),
    ensures
        tokens_of(word) == seq![word],
{
    lemma_run_ends_at(word, 0, 0, true);
    lemma_run_ends_at(word, 0, word.len() as int, false);
    lemma_run_ends_at(word, word.len() as int, word.len() as int, true);
    lemma_run_ends_at(word, word.len() as int, word.len() as int, false);
    assert(word.subrange(0, word.len() as int) == word);
    assert(tokens_from(word, word.len() as int) == Seq::<Seq<char>>::empty());
}

proof fn lemma_tokens_from_before_suffix(head: Seq<char>, tail: Seq<char>, i: int)
    requires
        0 <= i <= head.len(),
        head.len() == 0 || is_space(head.last()) || tail.len() == 0 || is_space(tail[0]),
    ensures
        tokens_from(head + tail, i) == tokens_from(head, i) + tokens_of(tail),
    decreases head.len() - i,
{
    let line = head + tail;
    let n = head.len() as int;
    assert forall|j: int| 0 <= j < n implies #[trigger] line[j] == head[j] by {}
    lemma_tokens_from_after_prefix(head, tail, 0);
    let start = run_end(head, i, true);
    lemma_run_end(head, i, true);
    let end = run_end(head, start, false);
    lemma_run_end(head, start, false);
    if start == n {
        lemma_tokens_from_skips_whitespace(line, i, n);
    } else {
        lemma_run_ends_at(line, i, start, true);
        if end == n {
            lemma_run_ends_at(head, n, n, true);
            lemma_run_ends_at(head, n, n, false);
        } else {
            lemma_tokens_from_before_suffix(head, tail, end);
        }
        lemma_run_ends_at(line, start, end, false);
        assert(line.subrange(start, end) == head.subrange(start, end));
    }
}

/// Where two pieces of a line meet at whitespace, or one of them is empty,
/// the tokens of the line are those of the first piece followed by those of
/// the second.
pub proof fn lemma_tokens_of_pieces(head: Seq<char>, tail: Seq<char>)
    requires
        head.len() == 0 || is_space(head.last()) || tail.len() == 0 || is_space(tail[0]),
    ensures
        tokens_of(head + tail) == tokens_of(head) + tokens_of(tail),
{
    lemma_tokens_from_before_suffix(head, tail, 0);
}

fn chars_of(input: &str) -> (chars: Vec<char>)
    ensures
        chars@ == input@,
{
    broadcast use vstd::string::group_string_axioms;

    let mut chars: Vec<char> = Vec::new();
    for c in it: input.chars()
        invariant
            chars@ == it.seq().take(it.index() as int),
            it.seq() == input@,
    {
        chars.push(c);
    }
    chars
}

fn scan(chars: &Vec<char>, from: usize, space: bool) -> (end: usize)
    requires
        from <= chars.len(),
    ensures
        end == run_end(chars@, from as int, space),
        from <= end <= chars.len(),
{
    let mut end: usize = from;
    while end < chars.len() && is_whitespace(chars[end]) == space
        invariant
            from <= end <= chars.len(),
            run_end(chars@, from as int, space) == run_end(chars@, end as int, space),
        decreases chars.len() - end,
    {
        end += 1;
    }
    end
}

/// Splits `input` into its tokens.
pub fn tokenize(input: &str) -> (words: Vec<String>)
    ensures
        views_are(words@, tokens_of(input@)),
{
    let chars = chars_of(input);
    let mut words: Vec<String> = Vec::new();
    let mut at: usize = 0;
    loop
        invariant_except_break
            views_of(words@) + tokens_from(input@, at as int) == tokens_of(input@),
        invariant
            chars@ == input@,
            at <= chars.len(),
        ensures
            views_of(words@) == tokens_of(input@),
        decreases chars.len() - at,
    {
        let start = scan(&chars, at, true);
        let end = scan(&chars, start, false);
        if start == end {
            break ;
        }
        let word = input.substring_char(start, end).to_owned();
        words.push(word);
        at = end;
    }
    words
}

} // verus!
