//! The counting pass: how text falls apart into lines, and which of
//! those lines count as empty.
//!
//! A line is the text between line terminators: the content is split at
//! every `'\n'`, the terminator itself and a `'\r'` directly before it
//! are not part of the line, and a final segment without a terminator
//! still counts as one line. A line is empty when nothing but
//! whitespace remains on it.

use vstd::prelude::*;

use crate::stats::LineStats;

verus! {

broadcast use vstd::string::group_string_axioms;

/// The Unicode `White_Space` code points, the characters that
/// `char::is_whitespace` accepts.
pub open spec fn is_ws_char(c: char) -> bool {
    let u = c as u32;
    ||| u == 0x9
    ||| u == 0xA
    ||| u == 0xB
    ||| u == 0xC
    ||| u == 0xD
    ||| u == 0x20
    ||| u == 0x85
    ||| u == 0xA0
    ||| u == 0x1680
    ||| (0x2000 <= u && u <= 0x200A)
    ||| u == 0x2028
    ||| u == 0x2029
    ||| u == 0x202F
    ||| u == 0x205F
    ||| u == 0x3000
}

/// A line counts as empty when every character on it is whitespace —
/// in particular when it has no characters at all.
pub open spec fn is_blank_line(l: Seq<char>) -> bool {
    forall|i: int| 0 <= i < l.len() ==> is_ws_char(#[trigger] l[i])
}

/// A carriage return directly before the line terminator belongs to
/// the terminator, not to the line.
pub open spec fn strip_cr(l: Seq<char>) -> Seq<char> {
    if l.len() > 0 && l.last() == '\r' {
        l.drop_last()
    } else {
        l
    }
}

/// Index of the first `'\n'` in `s`, or `s.len()` if there is none.
pub open spec fn find_nl(s: Seq<char>) -> int
    decreases s.len(),
{
    if s.len() == 0 {
        0
    } else if s[0] == '\n' {
        0
    } else {
        1 + find_nl(s.drop_first())
    }
}

/// The lines of `s`: split at every `'\n'`, drop the terminator and a
/// carriage return directly before it, and keep a final unterminated
/// segment — with its trailing `'\r'`, since no terminator follows —
/// as one more line. Empty text has no lines.
pub open spec fn lines_of(s: Seq<char>) -> Seq<Seq<char>>
    decreases s.len(),
    via lines_of_decreases
{
    if s.len() == 0 {
        Seq::empty()
    } else {
        let i = find_nl(s);
        if i == s.len() {
            seq![s]
        } else {
            seq![strip_cr(s.take(i))] + lines_of(s.skip(i + 1))
        }
    }
}

#[via_fn]
proof fn lines_of_decreases(s: Seq<char>) {
    lemma_find_nl_bounds(s);
}

/// How many of the given lines are empty.
pub open spec fn count_blank(ls: Seq<Seq<char>>) -> nat
    decreases ls.len(),
{
    if ls.len() == 0 {
        0
    } else {
        count_blank(ls.drop_last()) + if is_blank_line(ls.last()) {
            1nat
        } else {
            0nat
        }
    }
}

/// `find_nl` stays within the sequence.
pub proof fn lemma_find_nl_bounds(s: Seq<char>)
    ensures
        0 <= find_nl(s) <= s.len(),
    decreases s.len(),
{
    if s.len() > 0 && s[0] != '\n' {
        lemma_find_nl_bounds(s.drop_first());
    }
}

/// `find_nl` finds exactly the first newline: if nothing before `i` is
/// a newline and `i` is one — or the end — then `find_nl` is `i`.
pub proof fn lemma_find_nl_at(s: Seq<char>, i: int)
    requires
        0 <= i <= s.len(),
        forall|j: int| 0 <= j < i ==> s[j] != '\n',
        i < s.len() ==> s[i] == '\n',
    ensures
        find_nl(s) == i,
    decreases s.len(),
{
    if s.len() == 0 {
    } else if i == 0 {
    } else {
        let t = s.drop_first();
        assert(forall|j: int| 0 <= j < i - 1 ==> t[j] == s[j + 1] && t[j] != '\n');
        assert(i - 1 < t.len() ==> t[i - 1] == s[i]);
        lemma_find_nl_at(t, i - 1);
    }
}

/// Splitting off the first line: when the first newline of `s` stands
/// at `i`, the lines of `s` are the segment before it (its carriage
/// return stripped) followed by the lines of what comes after.
pub proof fn lemma_lines_of_split(s: Seq<char>, i: int)
    requires
        0 <= i < s.len(),
        s[i] == '\n',
        forall|j: int| 0 <= j < i ==> s[j] != '\n',
    ensures
        lines_of(s) == seq![strip_cr(s.take(i))] + lines_of(s.skip(i + 1)),
{
    lemma_find_nl_at(s, i);
}

/// Text without any newline is one single line.
pub proof fn lemma_lines_of_no_nl(s: Seq<char>)
    requires
        s.len() > 0,
        forall|j: int| 0 <= j < s.len() ==> s[j] != '\n',
    ensures
        lines_of(s) == seq![s],
{
    lemma_find_nl_at(s, s.len() as int);
}

/// Stripping the carriage return never changes whether a line is
/// empty: the carriage return is itself whitespace.
pub proof fn lemma_strip_cr_blank(l: Seq<char>)
    ensures
        is_blank_line(strip_cr(l)) <==> is_blank_line(l),
{
    if l.len() > 0 && l.last() == '\r' {
        let t = l.drop_last();
        assert(is_ws_char('\r'));
        if is_blank_line(t) {
            assert forall|i: int| 0 <= i < l.len() implies is_ws_char(l[i]) by {
                if i < l.len() - 1 {
                    assert(l[i] == t[i]);
                }
            }
        }
    }
}

/// Counting one more line adds one exactly when that line is empty.
pub proof fn lemma_count_blank_push(ls: Seq<Seq<char>>, l: Seq<char>)
    ensures
        count_blank(ls.push(l)) == count_blank(ls) + if is_blank_line(l) {
            1nat
        } else {
            0nat
        },
{
    assert(ls.push(l).drop_last() =~= ls);
    assert(ls.push(l).last() == l);
}

/// No more lines can be empty than there are lines.
pub proof fn lemma_count_blank_le_len(ls: Seq<Seq<char>>)
    ensures
        count_blank(ls) <= ls.len(),
    decreases ls.len(),
{
    if ls.len() > 0 {
        lemma_count_blank_le_len(ls.drop_last());
    }
}

/// Whether one character is whitespace, in the Unicode sense that line
/// classification uses.
pub fn is_whitespace_char(c: char) -> (r: bool)
    ensures
        r == is_ws_char(c),
{
    let u = c as u32;
    u == 0x9 || u == 0xA || u == 0xB || u == 0xC || u == 0xD || u == 0x20 || u == 0x85 || u == 0xA0
        || u == 0x1680 || (0x2000 <= u && u <= 0x200A) || u == 0x2028 || u == 0x2029 || u == 0x202F
        || u == 0x205F || u == 0x3000
}

/// Collects the characters of a string slice into a vector.
pub fn str_to_chars(s: &str) -> (v: Vec<char>)
    ensures
        v@ == s@,
{
    let mut v: Vec<char> = Vec::new();
    for c in it: s.chars()
        invariant
            it.seq() == s@,
            v@ == s@.take(it.index()),
    {
        v.push(c);
    }
    proof {
        assert(v@ =~= s@);
    }
    v
}

/// Whether a line, taken as its own piece of text, counts as empty:
/// nothing but whitespace on it.
pub fn line_is_empty(line: &str) -> (r: bool)
    ensures
        r == is_blank_line(line@),
{
    let chars = str_to_chars(line);
    let n = chars.len();
    let mut all_ws = true;
    let mut i: usize = 0;
    while i < n
        invariant
            n == chars@.len(),
            chars@ == line@,
            i <= n,
            all_ws <==> (forall|j: int| 0 <= j < i ==> is_ws_char(#[trigger] line@[j])),
        decreases n - i,
    {
        if !is_whitespace_char(chars[i]) {
            all_ws = false;
        }
        i = i + 1;
    }
    all_ws
}

/// The counter itself, on lines that are already split: one linear
/// pass, each line classified once, every line counted exactly once.
pub fn count_lines(lines: &Vec<String>) -> (r: LineStats)
    ensures
        r.total_lines == lines@.len(),
        r.empty_lines == count_blank(lines.deep_view()),
        r.non_empty_lines == lines@.len() - count_blank(lines.deep_view()),
        r.wf(),
{
    let mut non_empty: usize = 0;
    let mut empty: usize = 0;
    let mut i: usize = 0;
    while i < lines.len()
        invariant
            i <= lines@.len(),
            non_empty + empty == i,
            empty == count_blank(lines.deep_view().take(i as int)),
        decreases lines@.len() - i,
    {
        proof {
            assert(lines.deep_view().take(i + 1) =~= lines.deep_view().take(i as int).push(
                lines.deep_view()[i as int],
            ));
            lemma_count_blank_push(lines.deep_view().take(i as int), lines.deep_view()[i as int]);
            assert(lines.deep_view()[i as int] == lines@[i as int]@);
        }
        if line_is_empty(lines[i].as_str()) {
            empty = empty + 1;
        } else {
            non_empty = non_empty + 1;
        }
        i = i + 1;
    }
    proof {
        assert(lines.deep_view().take(i as int) =~= lines.deep_view());
        lemma_count_blank_le_len(lines.deep_view());
    }
    LineStats::new(lines.len(), non_empty, empty)
}

/// Splits the text into lines and counts them in a single pass:
/// the returned statistics are exactly those of [`lines_of`] the text.
pub fn analyze_text(text: &str) -> (r: LineStats)
    ensures
        r.total_lines == lines_of(text@).len(),
        r.empty_lines == count_blank(lines_of(text@)),
        r.non_empty_lines == lines_of(text@).len() - count_blank(lines_of(text@)),
        r.wf(),
{
    let chars = str_to_chars(text);
    let n = chars.len();
    let mut total: usize = 0;
    let mut non_empty: usize = 0;
    let mut empty: usize = 0;
    let mut start: usize = 0;
    let mut cur_blank = true;
    let ghost mut done: Seq<Seq<char>> = Seq::empty();
    let mut idx: usize = 0;
    proof {
        assert(text@.skip(0) =~= text@);
        assert(done + lines_of(text@) =~= lines_of(text@));
    }
    while idx < n
        invariant
            n == chars@.len(),
            chars@ == text@,
            start <= idx <= n,
            total <= start,
            total == done.len(),
            non_empty + empty == total,
            empty == count_blank(done),
            lines_of(text@) == done + lines_of(text@.skip(start as int)),
            forall|j: int| start <= j < idx ==> text@[j] != '\n',
            cur_blank <==> (forall|j: int| start <= j < idx ==> is_ws_char(#[trigger] text@[j])),
        decreases n - idx,
    {
        let c = chars[idx];
        if c == '\n' {
            let ghost rest = text@.skip(start as int);
            let ghost seg = strip_cr(text@.subrange(start as int, idx as int));
            proof {
                assert(rest[idx - start] == '\n');
                assert(forall|j: int| 0 <= j < idx - start ==> rest[j] == text@[start + j]
                    && rest[j] != '\n');
                lemma_lines_of_split(rest, idx - start);
                assert(rest.take(idx - start) =~= text@.subrange(start as int, idx as int));
                assert(rest.skip(idx - start + 1) =~= text@.skip(idx + 1));
                assert(lines_of(text@) == done + (seq![seg] + lines_of(text@.skip(idx + 1))));
                assert(done + (seq![seg] + lines_of(text@.skip(idx + 1))) =~= done.push(seg)
                    + lines_of(text@.skip(idx + 1)));
                lemma_count_blank_push(done, seg);
                lemma_strip_cr_blank(text@.subrange(start as int, idx as int));
                let sub = text@.subrange(start as int, idx as int);
                if is_blank_line(sub) {
                    assert forall|j: int| start <= j < idx implies is_ws_char(
                        #[trigger] text@[j],
                    ) by {
                        assert(text@[j] == sub[j - start]);
                    }
                }
                if forall|j: int| start <= j < idx ==> is_ws_char(#[trigger] text@[j]) {
                    assert forall|k: int| 0 <= k < sub.len() implies is_ws_char(
                        #[trigger] sub[k],
                    ) by {
                        assert(sub[k] == text@[start + k]);
                    }
                }
                done = done.push(seg);
            }
            if cur_blank {
                empty = empty + 1;
            } else {
                non_empty = non_empty + 1;
            }
            total = total + 1;
            start = idx + 1;
            cur_blank = true;
        } else {
            if !is_whitespace_char(c) {
                cur_blank = false;
            }
        }
        idx = idx + 1;
    }
    if start < n {
        let ghost rest = text@.skip(start as int);
        proof {
            assert(forall|j: int| 0 <= j < rest.len() ==> rest[j] == text@[start + j]
                && rest[j] != '\n');
            lemma_lines_of_no_nl(rest);
            assert(done + seq![rest] =~= done.push(rest));
            lemma_count_blank_push(done, rest);
            if is_blank_line(rest) {
                assert forall|j: int| start <= j < n implies is_ws_char(#[trigger] text@[j]) by {
                    assert(text@[j] == rest[j - start]);
                }
            }
            if forall|j: int| start <= j < n ==> is_ws_char(#[trigger] text@[j]) {
                assert forall|k: int| 0 <= k < rest.len() implies is_ws_char(
                    #[trigger] rest[k],
                ) by {
                    assert(rest[k] == text@[start + k]);
                }
            }
            done = done.push(rest);
        }
        if cur_blank {
            empty = empty + 1;
        } else {
            non_empty = non_empty + 1;
        }
        total = total + 1;
    } else {
        proof {
            assert(text@.skip(start as int) =~= Seq::<char>::empty());
            assert(done + lines_of(text@.skip(start as int)) =~= done);
        }
    }
    LineStats::new(total, non_empty, empty)
}

/// A segment that holds no line terminator of its own.
pub open spec fn no_nl(seg: Seq<char>) -> bool {
    forall|i: int| 0 <= i < seg.len() ==> seg[i] != '\n'
}

/// The text whose every segment is followed by a newline terminator.
pub open spec fn join_terminated(segs: Seq<Seq<char>>) -> Seq<char>
    decreases segs.len(),
{
    if segs.len() == 0 {
        Seq::empty()
    } else {
        segs.first() + seq!['\n'] + join_terminated(segs.drop_first())
    }
}

/// The text whose segments are separated by newlines, with no trailing
/// terminator after the last one.
pub open spec fn join_separated(segs: Seq<Seq<char>>) -> Seq<char>
    decreases segs.len(),
{
    if segs.len() == 0 {
        Seq::empty()
    } else if segs.len() == 1 {
        segs.first()
    } else {
        segs.first() + seq!['\n'] + join_separated(segs.drop_first())
    }
}

/// Law: text with no characters has no lines at all.
pub proof fn lemma_lines_of_empty()
    ensures
        lines_of(Seq::<char>::empty()).len() == 0,
{
}

/// Law: `n` segments, each closed by a newline terminator, make
/// exactly `n` lines — the empty segment after the final terminator is
/// not a line.
pub proof fn lemma_lines_terminated_count(segs: Seq<Seq<char>>)
    requires
        forall|k: int| 0 <= k < segs.len() ==> no_nl(#[trigger] segs[k]),
    ensures
        lines_of(join_terminated(segs)).len() == segs.len(),
    decreases segs.len(),
{
    if segs.len() > 0 {
        let s = join_terminated(segs);
        let head = segs.first();
        let tail = join_terminated(segs.drop_first());
        let i = head.len() as int;
        assert(s == head + seq!['\n'] + tail);
        assert(s[i] == '\n');
        assert(forall|j: int| 0 <= j < i ==> s[j] == head[j] && s[j] != '\n');
        lemma_lines_of_split(s, i);
        assert(s.skip(i + 1) =~= tail);
        assert(forall|k: int| 0 <= k < segs.drop_first().len() ==> no_nl(
            #[trigger] segs.drop_first()[k],
        ));
        lemma_lines_terminated_count(segs.drop_first());
    }
}

/// Law: `n` newline-delimited segments with no trailing terminator
/// after the last — which must therefore hold at least one character —
/// make exactly `n` lines: the final unterminated segment still counts
/// as one.
pub proof fn lemma_lines_separated_count(segs: Seq<Seq<char>>)
    requires
        segs.len() > 0,
        forall|k: int| 0 <= k < segs.len() ==> no_nl(#[trigger] segs[k]),
        segs.last().len() > 0,
    ensures
        lines_of(join_separated(segs)).len() == segs.len(),
    decreases segs.len(),
{
    let s = join_separated(segs);
    if segs.len() == 1 {
        lemma_lines_of_no_nl(s);
    } else {
        let head = segs.first();
        let tail = join_separated(segs.drop_first());
        let i = head.len() as int;
        assert(s == head + seq!['\n'] + tail);
        assert(s[i] == '\n');
        assert(forall|j: int| 0 <= j < i ==> s[j] == head[j] && s[j] != '\n');
        lemma_lines_of_split(s, i);
        assert(s.skip(i + 1) =~= tail);
        assert(forall|k: int| 0 <= k < segs.drop_first().len() ==> no_nl(
            #[trigger] segs.drop_first()[k],
        ));
        assert(segs.drop_first().last() == segs.last());
        lemma_lines_separated_count(segs.drop_first());
    }
}

/// Law: the statistics are a function of the text alone — two counting
/// passes over unchanged content return the very same numbers.
pub proof fn lemma_count_deterministic(a: LineStats, b: LineStats, text: Seq<char>)
    requires
        a.total_lines == lines_of(text).len(),
        a.empty_lines == count_blank(lines_of(text)),
        a.wf(),
        b.total_lines == lines_of(text).len(),
        b.empty_lines == count_blank(lines_of(text)),
        b.wf(),
    ensures
        a.total_lines == b.total_lines,
        a.non_empty_lines == b.non_empty_lines,
        a.empty_lines == b.empty_lines,
{
}

} // verus!
