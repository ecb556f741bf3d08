//! Single-line, single-spaced text.
//!
//! The sensor platform that reads the generated document is sensitive to line
//! breaks inside a query, so query text is stored without line breaks and with
//! every run of blanks reduced to one.

use vstd::prelude::*;

verus! {

/// Whether `c` has the Unicode property `White_Space`.
pub open spec fn white_space(c: char) -> bool {
    let n = c as u32;
    ||| 0x09 <= n <= 0x0d
    ||| n == 0x20
    ||| n == 0x85
    ||| n == 0xa0
    ||| n == 0x1680
    ||| 0x2000 <= n <= 0x200a
    ||| n == 0x2028
    ||| n == 0x2029
    ||| n == 0x202f
    ||| n == 0x205f
    ||| n == 0x3000
}

/// The index of the first character at or after `i` that is not white space,
/// or the length of `s` if there is none.
pub open spec fn text_start(s: Seq<char>, i: int) -> int
    decreases s.len() - i,
{
    if i < 0 || i >= s.len() {
        s.len() as int
    } else if !white_space(s[i]) {
        i
    } else {
        text_start(s, i + 1)
    }
}

/// One more than the index of the last character before `j` that is not
/// white space, or 0 if there is none.
pub open spec fn text_end(s: Seq<char>, j: int) -> int
    decreases j,
{
    if j <= 0 || j > s.len() {
        0
    } else if !white_space(s[j - 1]) {
        j
    } else {
        text_end(s, j - 1)
    }
}

/// `s` without its leading and trailing white space.
pub open spec fn trimmed(s: Seq<char>) -> Seq<char> {
    let start = text_start(s, 0);
    let end = text_end(s, s.len() as int);
    if start < end {
        s.subrange(start, end)
    } else {
        Seq::empty()
    }
}

/// `s` without its line feeds.
pub open spec fn without_line_feeds(s: Seq<char>) -> Seq<char>
    decreases s.len(),
{
    if s.len() == 0 {
        Seq::empty()
    } else if s.last() == '\n' {
        without_line_feeds(s.drop_last())
    } else {
        without_line_feeds(s.drop_last()).push(s.last())
    }
}

/// `s` with its leading and trailing blanks dropped and every run of blanks
/// between two other characters replaced by a single blank.
pub open spec fn single_spaced(s: Seq<char>) -> Seq<char>
    decreases s.len(),
{
    if s.len() == 0 {
        Seq::empty()
    } else if s.last() == ' ' {
        single_spaced(s.drop_last())
    } else {
        let before = single_spaced(s.drop_last());
        if before.len() > 0 && s.len() >= 2 && s[s.len() - 2] == ' ' {
            before.push(' ').push(s.last())
        } else {
            before.push(s.last())
        }
    }
}

/// The normal form of a text: surrounding white space trimmed, line feeds
/// deleted, runs of blanks collapsed.
pub open spec fn normalized(s: Seq<char>) -> Seq<char> {
    single_spaced(without_line_feeds(trimmed(s)))
}

/// Whether `s` holds no line feed.
pub open spec fn is_single_line(s: Seq<char>) -> bool {
    forall|i: int| 0 <= i < s.len() ==> s[i] != '\n'
}

/// Whether the characters of `s` at `i` and at `i + 1` are both blanks.
pub open spec fn is_blank_pair(s: Seq<char>, i: int) -> bool {
    0 <= i < s.len() - 1 && s[i] == ' ' && s[i + 1] == ' '
}

/// Whether `s` holds no two blanks in a row.
pub open spec fn has_no_blank_run(s: Seq<char>) -> bool {
    forall|i: int| !#[trigger] is_blank_pair(s, i)
}

/// Whether `s` neither begins nor ends with white space.
pub open spec fn has_tight_ends(s: Seq<char>) -> bool {
    s.len() > 0 ==> !white_space(s.first()) && !white_space(s.last())
}

/// Whether `s` is in normal form.
pub open spec fn is_normal(s: Seq<char>) -> bool {
    is_single_line(s) && has_no_blank_run(s) && has_tight_ends(s)
}

/// `text_start` finds the first character that is not white space: all
/// before it are white space.
pub proof fn lemma_text_start(s: Seq<char>, i: int)
    requires
        0 <= i <= s.len(),
    ensures
        i <= text_start(s, i) <= s.len(),
        text_start(s, i) < s.len() ==> !white_space(s[text_start(s, i)]),
        forall|k: int| i <= k < text_start(s, i) ==> white_space(#[trigger] s[k]),
    decreases s.len() - i,
{
    if i < s.len() && white_space(s[i]) {
        lemma_text_start(s, i + 1);
    }
}

/// `text_end` finds the last character that is not white space: all after it
/// are white space.
pub proof fn lemma_text_end(s: Seq<char>, j: int)
    requires
        0 <= j <= s.len(),
    ensures
        0 <= text_end(s, j) <= j,
        text_end(s, j) > 0 ==> !white_space(s[text_end(s, j) - 1]),
        forall|k: int| text_end(s, j) <= k < j ==> white_space(#[trigger] s[k]),
    decreases j,
{
    if j > 0 && white_space(s[j - 1]) {
        lemma_text_end(s, j - 1);
    }
}

/// Trimming leaves no white space at either end, and leaves a text without
/// such white space as it is.
pub proof fn lemma_trimmed(s: Seq<char>)
    ensures
        has_tight_ends(trimmed(s)),
        has_tight_ends(s) ==> trimmed(s) == s,
{
    lemma_text_start(s, 0);
    lemma_text_end(s, s.len() as int);
    if has_tight_ends(s) {
        assert(trimmed(s) =~= s);
    }
}

/// Deleting line feeds leaves none, keeps a first and a last character that
/// are no line feeds, and leaves a text without line feeds as it is.
pub proof fn lemma_without_line_feeds(s: Seq<char>)
    ensures
        is_single_line(without_line_feeds(s)),
        is_single_line(s) ==> without_line_feeds(s) == s,
        s.len() > 0 && s.first() != '\n' ==> without_line_feeds(s).len() > 0
            && without_line_feeds(s).first() == s.first(),
        s.len() > 0 && s.last() != '\n' ==> without_line_feeds(s).len() > 0
            && without_line_feeds(s).last() == s.last(),
    decreases s.len(),
{
    if s.len() > 0 {
        let front = s.drop_last();
        lemma_without_line_feeds(front);
        if is_single_line(s) {
            assert(is_single_line(front));
            assert(without_line_feeds(s) =~= s);
        }
    }
}

/// Collapsing blanks leaves no two blanks in a row and no blank at either end;
/// it adds no line feed, and keeps a first and a last character that are no
/// blanks.
pub proof fn lemma_single_spaced(s: Seq<char>)
    ensures
        has_no_blank_run(single_spaced(s)),
        single_spaced(s).len() > 0 ==> single_spaced(s).first() != ' ' && single_spaced(
            s,
        ).last() != ' ',
        is_single_line(s) ==> is_single_line(single_spaced(s)),
        s.len() > 0 && s.first() != ' ' ==> single_spaced(s).len() > 0 && single_spaced(
            s,
        ).first() == s.first(),
        s.len() > 0 && s.last() != ' ' ==> single_spaced(s).len() > 0 && single_spaced(s).last()
            == s.last(),
    decreases s.len(),
{
    if s.len() > 0 {
        let front = s.drop_last();
        let before = single_spaced(front);
        let after = single_spaced(s);
        lemma_single_spaced(front);
        if is_single_line(s) {
            assert(is_single_line(front));
        }
        if s.last() != ' ' {
            assert forall|i: int| !#[trigger] is_blank_pair(after, i) by {
                assert(!is_blank_pair(before, i));
            }
            if front.len() > 0 && front.first() != ' ' {
                assert(before.first() == s.first());
            }
        }
    }
}

/// Collapsing blanks leaves a text as it is if it holds no two blanks in a row
/// and no blank at its beginning; a single blank at its end goes.
pub proof fn lemma_single_spaced_keeps(s: Seq<char>)
    requires
        has_no_blank_run(s),
        s.len() > 0 ==> s.first() != ' ',
    ensures
        single_spaced(s) == (if s.len() > 0 && s.last() == ' ' {
            s.drop_last()
        } else {
            s
        }),
    decreases s.len(),
{
    if s.len() > 0 {
        let front = s.drop_last();
        assert forall|i: int| !#[trigger] is_blank_pair(front, i) by {
            assert(!is_blank_pair(s, i));
        }
        if front.len() > 0 {
            assert(front.first() == s.first());
            assert(!is_blank_pair(s, s.len() - 2));
        }
        lemma_single_spaced_keeps(front);
        if s.last() != ' ' {
            if front.len() > 0 && front.last() == ' ' {
                assert(front.len() >= 2);
                assert(single_spaced(s) =~= s);
            } else {
                assert(single_spaced(s) =~= s);
            }
        }
    }
}

/// Whether `s` holds neither a blank nor a line feed.
pub open spec fn is_plain(s: Seq<char>) -> bool {
    forall|i: int| 0 <= i < s.len() ==> s[i] != ' ' && s[i] != '\n'
}

/// Whether `s` begins with `head`.
pub open spec fn begins_with(s: Seq<char>, head: Seq<char>) -> bool {
    head.len() <= s.len() && s.subrange(0, head.len() as int) == head
}

/// Whether `s` ends with `tail`.
pub open spec fn ends_with(s: Seq<char>, tail: Seq<char>) -> bool {
    tail.len() <= s.len() && s.subrange(s.len() - tail.len(), s.len() as int) == tail
}

/// A text without blanks and line feeds is a single line without a run of blanks.
pub proof fn lemma_plain_parts(s: Seq<char>)
    requires
        is_plain(s),
    ensures
        is_single_line(s),
        has_no_blank_run(s),
{
}

/// Two single lines in a row are a single line, and hold no run of blanks
/// unless one of them does or the first ends and the second begins with a blank.
pub proof fn lemma_concat_parts(a: Seq<char>, b: Seq<char>)
    requires
        is_single_line(a),
        is_single_line(b),
        has_no_blank_run(a),
        has_no_blank_run(b),
        a.len() > 0 && b.len() > 0 ==> !(a.last() == ' ' && b.first() == ' '),
    ensures
        is_single_line(a + b),
        has_no_blank_run(a + b),
{
    assert forall|i: int| !#[trigger] is_blank_pair(a + b, i) by {
        if i + 1 < a.len() {
            assert(!is_blank_pair(a, i));
        } else if i >= a.len() {
            assert(!is_blank_pair(b, i - a.len()));
        }
    }
}

/// Deleting the line feeds of two texts in a row is deleting those of each.
pub proof fn lemma_without_line_feeds_concat(a: Seq<char>, b: Seq<char>)
    ensures
        without_line_feeds(a + b) == without_line_feeds(a) + without_line_feeds(b),
    decreases b.len(),
{
    if b.len() == 0 {
        assert(a + b =~= a);
        assert(without_line_feeds(a) + without_line_feeds(b) =~= without_line_feeds(a));
    } else {
        assert((a + b).drop_last() =~= a + b.drop_last());
        lemma_without_line_feeds_concat(a, b.drop_last());
        assert(without_line_feeds(a + b) =~= without_line_feeds(a) + without_line_feeds(b));
    }
}

/// Collapsing blanks works from left to right: what it makes of a text is the
/// beginning of what it makes of the text with more behind it.
pub proof fn lemma_single_spaced_prefix(a: Seq<char>, b: Seq<char>)
    ensures
        begins_with(single_spaced(a + b), single_spaced(a)),
    decreases b.len(),
{
    let head = single_spaced(a);
    if b.len() == 0 {
        assert(a + b =~= a);
        assert(head.subrange(0, head.len() as int) =~= head);
    } else {
        assert((a + b).drop_last() =~= a + b.drop_last());
        lemma_single_spaced_prefix(a, b.drop_last());
        let shorter = single_spaced(a + b.drop_last());
        let longer = single_spaced(a + b);
        assert(shorter.subrange(0, head.len() as int) == head);
        assert(longer.subrange(0, head.len() as int) =~= shorter.subrange(0, head.len() as int));
    }
}

/// What stands between the collapsed forms of two texts in a row: a blank if
/// the first ends with one and is more than blanks, else nothing.
pub open spec fn joint(a: Seq<char>) -> Seq<char> {
    if single_spaced(a).len() > 0 && a.len() > 0 && a.last() == ' ' {
        seq![' ']
    } else {
        Seq::empty()
    }
}

/// Collapsing the blanks of two texts in a row, the second of which begins
/// with another character than a blank, is collapsing those of each.
pub proof fn lemma_single_spaced_concat(a: Seq<char>, b: Seq<char>)
    requires
        b.len() > 0,
        b.first() != ' ',
    ensures
        single_spaced(a + b) == single_spaced(a) + joint(a) + single_spaced(b),
    decreases b.len(),
{
    let whole = a + b;
    if b.len() == 1 {
        assert(whole.drop_last() =~= a);
        assert(b.drop_last().len() == 0);
        assert(single_spaced(b.drop_last()) =~= Seq::<char>::empty());
        assert(b.last() == b.first());
        assert(single_spaced(b) =~= seq![b.last()]);
        assert(single_spaced(whole) =~= single_spaced(a) + joint(a) + single_spaced(b));
    } else {
        let front = b.drop_last();
        assert(whole.drop_last() =~= a + front);
        assert(front.first() == b.first());
        lemma_single_spaced_concat(a, front);
        lemma_single_spaced(front);
        assert(whole[whole.len() - 2] == b[b.len() - 2]);
        assert(single_spaced(whole) =~= single_spaced(a) + joint(a) + single_spaced(b));
    }
}

/// The normal form of any text is a single line without two blanks in a row
/// and without white space at either end.
pub proof fn lemma_normalized_is_normal(s: Seq<char>)
    ensures
        is_normal(normalized(s)),
{
    let t = trimmed(s);
    let u = without_line_feeds(t);
    lemma_trimmed(s);
    lemma_without_line_feeds(t);
    lemma_single_spaced(u);
}

/// A text that is in normal form is its own normal form.
pub proof fn lemma_normal_is_kept(s: Seq<char>)
    requires
        is_normal(s),
    ensures
        normalized(s) == s,
{
    lemma_trimmed(s);
    lemma_without_line_feeds(s);
    lemma_single_spaced_keeps(s);
}

/// Normalising twice gives what normalising once gives.
pub proof fn law_normalized_twice(s: Seq<char>)
    ensures
        normalized(normalized(s)) == normalized(s),
{
    lemma_normalized_is_normal(s);
    lemma_normal_is_kept(normalized(s));
}

/// Tells whether `c` has the Unicode property `White_Space`.
pub fn is_white_space(c: char) -> (b: bool)
    ensures
        b == white_space(c),
{
    let n: u32 = c as u32;
    (0x09 <= n && n <= 0x0d) || n == 0x20 || n == 0x85 || n == 0xa0 || n == 0x1680 || (0x2000 <= n
        && n <= 0x200a) || n == 0x2028 || n == 0x2029 || n == 0x202f || n == 0x205f || n == 0x3000
}

/// Brings `text` into normal form: trims the white space around it, deletes
/// its line feeds and collapses its runs of blanks.
pub fn normalize(text: &str) -> (out: String)
    ensures
        out@ == normalized(text@),
        is_normal(out@),
{
    let n = text.unicode_len();
    let mut start: usize = 0;
    while start < n && is_white_space(text.get_char(start))
        invariant
            0 <= start <= n,
            n == text@.len(),
            text_start(text@, 0) == text_start(text@, start as int),
        decreases n - start,
    {
        start += 1;
    }
    let mut end: usize = n;
    while end > start && is_white_space(text.get_char(end - 1))
        invariant
            start <= end <= n,
            n == text@.len(),
            text_end(text@, n as int) == text_end(text@, end as int),
        decreases end,
    {
        end -= 1;
    }
    proof {
        lemma_text_start(text@, 0);
        lemma_text_end(text@, end as int);
    }
    assert(trimmed(text@) =~= text@.subrange(start as int, end as int));
    let mut out = String::new();
    let mut gap = false;
    let mut i: usize = start;
    while i < end
        invariant
            start <= i <= end <= n,
            n == text@.len(),
            out@ == single_spaced(without_line_feeds(text@.subrange(start as int, i as int))),
            gap == ({
                let kept = without_line_feeds(text@.subrange(start as int, i as int));
                kept.len() > 0 && kept.last() == ' '
            }),
        decreases end - i,
    {
        let c = text.get_char(i);
        let ghost kept = without_line_feeds(text@.subrange(start as int, i as int));
        let ghost next = text@.subrange(start as int, i + 1);
        proof {
            assert(next.drop_last() =~= text@.subrange(start as int, i as int));
            assert(next.last() == c);
            reveal_strlit(" ");
        }
        if c == '\n' {
        } else if c == ' ' {
            gap = true;
            assert(kept.push(c).drop_last() =~= kept);
        } else {
            if gap && !out.as_str().is_empty() {
                out.append(" ");
            }
            out.append(text.substring_char(i, i + 1));
            gap = false;
            proof {
                assert(kept.push(c).drop_last() =~= kept);
                assert(text@.subrange(i as int, i + 1) =~= seq![c]);
                assert(" "@ =~= seq![' ']);
                assert(out@ =~= single_spaced(kept.push(c)));
            }
        }
        i += 1;
    }
    proof {
        lemma_normalized_is_normal(text@);
    }
    out
}

} // verus!
