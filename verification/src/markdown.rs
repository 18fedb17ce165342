//! The light markdown of the game master's text: `**` toggles bold, `###`
//! introduces a header word shown in capitals, `- ` starts a list item that ends
//! with the line.
use vstd::prelude::*;

use crate::text::{chars_of, push_char, spec_to_uppercase, to_uppercase};

verus! {

broadcast use vstd::string::group_string_axioms;

/// A run of text with its emphasis.
#[derive(Debug, Clone)]
pub struct StyledSpan {
    pub text: String,
    pub bold: bool,
    pub underlined: bool,
}

/// The text and emphasis of a span.
pub open spec fn span_view(s: StyledSpan) -> (Seq<char>, bool, bool) {
    (s.text@, s.bold, s.underlined)
}

/// The first position from `j` on that does not hold `c`.
pub open spec fn run_end(s: Seq<char>, j: int, c: char) -> int
    decreases s.len() - j,
{
    if 0 <= j < s.len() && s[j] == c {
        run_end(s, j + 1, c)
    } else {
        j
    }
}

/// The first position from `j` on that holds a space, or the end.
pub open spec fn word_end(s: Seq<char>, j: int) -> int
    decreases s.len() - j,
{
    if 0 <= j < s.len() && s[j] != ' ' {
        word_end(s, j + 1)
    } else {
        j
    }
}

/// `n` copies of `c`.
pub open spec fn repeat(c: char, n: int) -> Seq<char> {
    Seq::new(n as nat, |k: int| c)
}

/// `out` with the text `cur` added as a span of the given emphasis when it is not
/// empty.
pub open spec fn flush(out: Seq<(Seq<char>, bool, bool)>, cur: Seq<char>, bold: bool) -> Seq<
    (Seq<char>, bool, bool),
> {
    if cur.len() > 0 {
        out.push((cur, bold, false))
    } else {
        out
    }
}

/// The spans of `s` from position `i` on, after the spans `out`, with the pending
/// text `cur`, inside bold or not, inside a list item or not.
pub open spec fn md_from(
    s: Seq<char>,
    i: int,
    out: Seq<(Seq<char>, bool, bool)>,
    cur: Seq<char>,
    bold: bool,
    list: bool,
) -> Seq<(Seq<char>, bool, bool)>
    decreases s.len() - i,
{
    if i < 0 || i >= s.len() {
        flush(out, cur, bold)
    } else if s[i] == '*' {
        if i + 1 < s.len() && s[i + 1] == '*' {
            md_from(s, i + 2, flush(out, cur, bold), Seq::empty(), !bold, list)
        } else {
            md_from(s, i + 1, out, cur.push('*'), bold, list)
        }
    } else if s[i] == '#' {
        let j = run_end(s, i + 1, '#');
        if j <= i || j > s.len() {
            out
        } else if j - i == 3 {
            let k = run_end(s, j, ' ');
            let e = word_end(s, k);
            let next = if e < s.len() {
                e + 1
            } else {
                e
            };
            if k < j || e < k || next <= i || next > s.len() {
                out
            } else {
                md_from(
                    s,
                    next,
                    flush(out, cur, false).push((spec_to_uppercase(s.subrange(k, e)), true, true)),
                    Seq::empty(),
                    bold,
                    list,
                )
            }
        } else {
            md_from(s, j, out, cur + repeat('#', j - i), bold, list)
        }
    } else if s[i] == '-' && i + 1 < s.len() && s[i + 1] == ' ' {
        md_from(s, i + 1, flush(out, cur, false), seq!['-'], bold, true)
    } else if s[i] == '\n' {
        if list {
            md_from(s, i + 1, out.push((cur, false, false)), seq!['\n'], bold, false)
        } else {
            md_from(s, i + 1, out, cur.push('\n'), bold, list)
        }
    } else {
        md_from(s, i + 1, out, cur.push(s[i]), bold, list)
    }
}

/// The spans of a line: text between `**` pairs is bold (an unclosed pair runs to
/// the end); `###` followed by spaces makes the next word a header, in capitals,
/// bold and underlined, the space after it dropped; a run of other than three `#`
/// stays text; `- ` ends the pending text and starts a list item, which a line
/// break ends. The text before a header or a list item keeps no emphasis.
pub open spec fn markdown_spans(s: Seq<char>) -> Seq<(Seq<char>, bool, bool)> {
    md_from(s, 0, Seq::empty(), Seq::empty(), false, false)
}

proof fn lemma_run_end_bounds(s: Seq<char>, j: int, c: char)
    requires
        0 <= j <= s.len(),
    ensures
        j <= run_end(s, j, c) <= s.len(),
        forall|m: int| j <= m < run_end(s, j, c) ==> s[m] == c,
        run_end(s, j, c) < s.len() ==> s[run_end(s, j, c)] != c,
    decreases s.len() - j,
{
    if j < s.len() && s[j] == c {
        lemma_run_end_bounds(s, j + 1, c);
    }
}

proof fn lemma_word_end_bounds(s: Seq<char>, j: int)
    requires
        0 <= j <= s.len(),
    ensures
        j <= word_end(s, j) <= s.len(),
        word_end(s, j) < s.len() ==> s[word_end(s, j)] == ' ',
    decreases s.len() - j,
{
    if j < s.len() && s[j] != ' ' {
        lemma_word_end_bounds(s, j + 1);
    }
}

fn push_span(out: &mut Vec<StyledSpan>, text: String, bold: bool, underlined: bool)
    ensures
        final(out)@.map_values(|x: StyledSpan| span_view(x)) == old(out)@.map_values(
            |x: StyledSpan| span_view(x),
        ).push((text@, bold, underlined)),
{
    let ghost before = out@;
    out.push(StyledSpan { text, bold, underlined });
    assert(out@.map_values(|x: StyledSpan| span_view(x)) =~= before.map_values(
        |x: StyledSpan| span_view(x),
    ).push((text@, bold, underlined)));
}

/// Splits a line into spans of text and emphasis.
pub fn parse_markdown(line: &str) -> (spans: Vec<StyledSpan>)
    ensures
        spans@.map_values(|x: StyledSpan| span_view(x)) == markdown_spans(line@),
{
    let s = chars_of(line);
    let n = s.len();
    let mut out: Vec<StyledSpan> = Vec::new();
    let mut cur = String::new();
    let mut bold = false;
    let mut list = false;
    let mut i: usize = 0;
    assert(out@.map_values(|x: StyledSpan| span_view(x)) =~= Seq::<(Seq<char>, bool, bool)>::empty());
    while i < n
        invariant
            n == s@.len(),
            s@ == line@,
            i <= n,
            md_from(s@, i as int, out@.map_values(|x: StyledSpan| span_view(x)), cur@, bold, list)
                == markdown_spans(line@),
        decreases n - i,
    {
        let ghost outv = out@.map_values(|x: StyledSpan| span_view(x));
        let ch = s[i];
        if ch == '*' {
            if i + 1 < n && s[i + 1] == '*' {
                if !cur.as_str().is_empty() {
                    push_span(&mut out, cur, bold, false);
                }
                cur = String::new();
                bold = !bold;
                i = i + 2;
            } else {
                push_char(&mut cur, '*');
                i = i + 1;
            }
        } else if ch == '#' {
            let mut j = i + 1;
            proof {
                lemma_run_end_bounds(s@, i + 1, '#');
            }
            while j < n && s[j] == '#'
                invariant
                    n == s@.len(),
                    i < j <= n,
                    run_end(s@, j as int, '#') == run_end(s@, i + 1, '#'),
                decreases n - j,
            {
                j = j + 1;
            }
            if j - i == 3 {
                if !cur.as_str().is_empty() {
                    push_span(&mut out, cur, false, false);
                }
                cur = String::new();
                let mut k = j;
                proof {
                    lemma_run_end_bounds(s@, j as int, ' ');
                }
                while k < n && s[k] == ' '
                    invariant
                        n == s@.len(),
                        j <= k <= n,
                        run_end(s@, k as int, ' ') == run_end(s@, j as int, ' '),
                    decreases n - k,
                {
                    k = k + 1;
                }
                let mut header = String::new();
                let mut e = k;
                proof {
                    lemma_word_end_bounds(s@, k as int);
                }
                while e < n && s[e] != ' '
                    invariant
                        n == s@.len(),
                        k <= e <= n,
                        word_end(s@, e as int) == word_end(s@, k as int),
                        header@ == s@.subrange(k as int, e as int),
                    decreases n - e,
                {
                    push_char(&mut header, s[e]);
                    assert(s@.subrange(k as int, e + 1) =~= s@.subrange(k as int, e as int).push(
                        s@[e as int],
                    ));
                    e = e + 1;
                }
                let upper = to_uppercase(header.as_str());
                push_span(&mut out, upper, true, true);
                i = if e < n {
                    e + 1
                } else {
                    e
                };
            } else {
                let ghost before = cur@;
                let mut m = i;
                while m < j
                    invariant
                        i <= m <= j,
                        cur@ == before + repeat('#', m - i),
                    decreases j - m,
                {
                    push_char(&mut cur, '#');
                    assert(before + repeat('#', m + 1 - i) =~= (before + repeat('#', m - i)).push(
                        '#',
                    ));
                    m = m + 1;
                }
                i = j;
            }
        } else if ch == '-' && i + 1 < n && s[i + 1] == ' ' {
            if !cur.as_str().is_empty() {
                push_span(&mut out, cur, false, false);
            }
            cur = String::new();
            push_char(&mut cur, '-');
            list = true;
            i = i + 1;
        } else if ch == '\n' {
            if list {
                push_span(&mut out, cur, false, false);
                cur = String::new();
                push_char(&mut cur, '\n');
                list = false;
            } else {
                push_char(&mut cur, '\n');
            }
            i = i + 1;
        } else {
            push_char(&mut cur, ch);
            i = i + 1;
        }
    }
    if !cur.as_str().is_empty() {
        push_span(&mut out, cur, bold, false);
    }
    out
}

/// No two neighbouring characters of `t` are both `*`.
pub open spec fn no_star_pair(t: Seq<char>) -> bool {
    forall|k: int| #![trigger t[k]] 0 <= k < t.len() - 1 ==> !(t[k] == '*' && t[k + 1] == '*')
}

/// Every span of `out` other than a header holds no `**`.
pub open spec fn shows_no_star_pair(out: Seq<(Seq<char>, bool, bool)>) -> bool {
    forall|j: int| 0 <= j < out.len() && !(#[trigger] out[j]).2 ==> no_star_pair(out[j].0)
}

proof fn lemma_push_keeps_no_star_pair(t: Seq<char>, c: char)
    requires
        no_star_pair(t),
        c != '*' || t.len() == 0 || t.last() != '*',
    ensures
        no_star_pair(t.push(c)),
{
    assert forall|k: int| 0 <= k < t.push(c).len() - 1 implies !(#[trigger] t.push(c)[k] == '*'
        && t.push(c)[k + 1] == '*') by {
        if k + 1 < t.len() {
            assert(t.push(c)[k] == t[k] && t.push(c)[k + 1] == t[k + 1]);
        }
    }
}

proof fn lemma_flush_keeps(out: Seq<(Seq<char>, bool, bool)>, cur: Seq<char>, bold: bool)
    requires
        shows_no_star_pair(out),
        no_star_pair(cur),
    ensures
        shows_no_star_pair(flush(out, cur, bold)),
        out.len() <= flush(out, cur, bold).len(),
        forall|j: int| 0 <= j < out.len() ==> flush(out, cur, bold)[j] == out[j],
{
}

/// The spans from position `i` on keep the spans already made, in front.
proof fn lemma_md_keeps_prefix(
    s: Seq<char>,
    i: int,
    out: Seq<(Seq<char>, bool, bool)>,
    cur: Seq<char>,
    bold: bool,
    list: bool,
)
    ensures
        out.len() <= md_from(s, i, out, cur, bold, list).len(),
        forall|j: int| 0 <= j < out.len() ==> #[trigger] md_from(s, i, out, cur, bold, list)[j] == out[j],
    decreases s.len() - i,
{
    if i < 0 || i >= s.len() {
    } else if s[i] == '*' {
        if s[i + 1] == '*' && i + 1 < s.len() {
            lemma_md_keeps_prefix(s, i + 2, flush(out, cur, bold), Seq::empty(), !bold, list);
        } else {
            lemma_md_keeps_prefix(s, i + 1, out, cur.push('*'), bold, list);
        }
    } else if s[i] == '#' {
        let j = run_end(s, i + 1, '#');
        if j <= i || j > s.len() {
        } else if j - i == 3 {
            let k = run_end(s, j, ' ');
            let e = word_end(s, k);
            let next = if e < s.len() {
                e + 1
            } else {
                e
            };
            if k < j || e < k || next <= i || next > s.len() {
            } else {
                let o2 = flush(out, cur, false).push((spec_to_uppercase(s.subrange(k, e)), true, true));
                lemma_md_keeps_prefix(s, next, o2, Seq::empty(), bold, list);
            }
        } else {
            lemma_md_keeps_prefix(s, j, out, cur + repeat('#', j - i), bold, list);
        }
    } else if s[i] == '-' && i + 1 < s.len() && s[i + 1] == ' ' {
        lemma_md_keeps_prefix(s, i + 1, flush(out, cur, false), seq!['-'], bold, true);
    } else if s[i] == '\n' {
        if list {
            lemma_md_keeps_prefix(s, i + 1, out.push((cur, false, false)), seq!['\n'], bold, false);
        } else {
            lemma_md_keeps_prefix(s, i + 1, out, cur.push('\n'), bold, list);
        }
    } else {
        lemma_md_keeps_prefix(s, i + 1, out, cur.push(s[i]), bold, list);
    }
}

proof fn lemma_md_no_star_pair(
    s: Seq<char>,
    i: int,
    out: Seq<(Seq<char>, bool, bool)>,
    cur: Seq<char>,
    bold: bool,
    list: bool,
)
    requires
        0 <= i,
        shows_no_star_pair(out),
        no_star_pair(cur),
        cur.len() > 0 && cur.last() == '*' && i < s.len() ==> s[i] != '*',
    ensures
        shows_no_star_pair(md_from(s, i, out, cur, bold, list)),
    decreases s.len() - i,
{
    if i >= s.len() {
        lemma_flush_keeps(out, cur, bold);
    } else if s[i] == '*' {
        if s[i + 1] == '*' && i + 1 < s.len() {
            lemma_flush_keeps(out, cur, bold);
            lemma_md_no_star_pair(s, i + 2, flush(out, cur, bold), Seq::empty(), !bold, list);
        } else {
            lemma_push_keeps_no_star_pair(cur, '*');
            lemma_md_no_star_pair(s, i + 1, out, cur.push('*'), bold, list);
        }
    } else if s[i] == '#' {
        let j = run_end(s, i + 1, '#');
        lemma_run_end_bounds(s, i + 1, '#');
        if j <= i || j > s.len() {
        } else if j - i == 3 {
            let k = run_end(s, j, ' ');
            let e = word_end(s, k);
            let next = if e < s.len() {
                e + 1
            } else {
                e
            };
            if k < j || e < k || next <= i || next > s.len() {
            } else {
                lemma_flush_keeps(out, cur, false);
                let o1 = flush(out, cur, false);
                let o2 = o1.push((spec_to_uppercase(s.subrange(k, e)), true, true));
                assert(shows_no_star_pair(o2)) by {
                    assert forall|m: int| 0 <= m < o2.len() && !(#[trigger] o2[m]).2 implies no_star_pair(
                        o2[m].0,
                    ) by {
                        assert(m < o1.len());
                        assert(o2[m] == o1[m]);
                    }
                }
                lemma_md_no_star_pair(s, next, o2, Seq::empty(), bold, list);
            }
        } else {
            let c2 = cur + repeat('#', j - i);
            assert(no_star_pair(c2)) by {
                assert forall|m: int| 0 <= m < c2.len() - 1 implies !(#[trigger] c2[m] == '*' && c2[m
                    + 1] == '*') by {
                    if m + 1 < cur.len() {
                        assert(c2[m] == cur[m] && c2[m + 1] == cur[m + 1]);
                    } else {
                        assert(c2[m + 1] == '#');
                    }
                }
            }
            assert(c2.last() == '#');
            lemma_md_no_star_pair(s, j, out, c2, bold, list);
        }
    } else if s[i] == '-' && i + 1 < s.len() && s[i + 1] == ' ' {
        lemma_flush_keeps(out, cur, false);
        assert(no_star_pair(seq!['-']));
        lemma_md_no_star_pair(s, i + 1, flush(out, cur, false), seq!['-'], bold, true);
    } else if s[i] == '\n' {
        if list {
            let o2 = out.push((cur, false, false));
            assert(shows_no_star_pair(o2)) by {
                assert forall|m: int| 0 <= m < o2.len() && !(#[trigger] o2[m]).2 implies no_star_pair(
                    o2[m].0,
                ) by {
                    if m < out.len() {
                        assert(o2[m] == out[m]);
                    }
                }
            }
            assert(no_star_pair(seq!['\n']));
            lemma_md_no_star_pair(s, i + 1, o2, seq!['\n'], bold, false);
        } else {
            lemma_push_keeps_no_star_pair(cur, '\n');
            lemma_md_no_star_pair(s, i + 1, out, cur.push('\n'), bold, list);
        }
    } else {
        lemma_push_keeps_no_star_pair(cur, s[i]);
        lemma_md_no_star_pair(s, i + 1, out, cur.push(s[i]), bold, list);
    }
}

/// A `**` of a line never reaches the text shown, inside a list item as much as
/// anywhere else: every span but a header holds no two neighbouring `*`.
pub proof fn law_bold_markers_are_never_shown(s: Seq<char>)
    ensures
        shows_no_star_pair(markdown_spans(s)),
{
    lemma_md_no_star_pair(s, 0, Seq::empty(), Seq::empty(), false, false);
}

/// A run of plain characters (none of `*`, `#`, `-`, or a line break) only adds
/// itself to the pending text.
proof fn lemma_md_plain_run(
    s: Seq<char>,
    i: int,
    j: int,
    out: Seq<(Seq<char>, bool, bool)>,
    cur: Seq<char>,
    bold: bool,
    list: bool,
)
    requires
        0 <= i <= j <= s.len(),
        forall|m: int|
            i <= m < j ==> #[trigger] s[m] != '*' && s[m] != '#' && s[m] != '-' && s[m] != '\n',
    ensures
        md_from(s, i, out, cur, bold, list) == md_from(s, j, out, cur + s.subrange(i, j), bold, list),
    decreases j - i,
{
    if i < j {
        lemma_md_plain_run(s, i + 1, j, out, cur.push(s[i]), bold, list);
        assert(cur.push(s[i]) + s.subrange(i + 1, j) =~= cur + s.subrange(i, j));
    } else {
        assert(cur + s.subrange(i, j) =~= cur);
    }
}

/// Inside a list item, text between `**` markers is bold: a line made of `- `,
/// `**`, a plain text `t`, `**` and anything else starts with the plain span `- `
/// and the bold span `t`.
pub proof fn law_bold_inside_a_list_item(t: Seq<char>, rest: Seq<char>)
    requires
        t.len() > 0,
        forall|m: int|
            0 <= m < t.len() ==> #[trigger] t[m] != '*' && t[m] != '#' && t[m] != '-' && t[m]
                != '\n',
    ensures
        ({
            let spans = markdown_spans(seq!['-', ' ', '*', '*'] + t + seq!['*', '*'] + rest);
            &&& spans.len() >= 2
            &&& spans[0] == (seq!['-', ' '], false, false)
            &&& spans[1] == (t, true, false)
        }),
{
    let s = seq!['-', ' ', '*', '*'] + t + seq!['*', '*'] + rest;
    let n = t.len() as int;
    assert(s[0] == '-' && s[1] == ' ' && s[2] == '*' && s[3] == '*');
    assert(s.subrange(4, 4 + n) =~= t);
    assert(s[4 + n] == '*' && s[5 + n] == '*');
    let e: Seq<(Seq<char>, bool, bool)> = Seq::empty();
    let out1 = seq![(seq!['-', ' '], false, false)];
    assert(md_from(s, 0, e, Seq::empty(), false, false) == md_from(s, 1, e, seq!['-'], false, true));
    assert(md_from(s, 1, e, seq!['-'], false, true) == md_from(s, 2, e, seq!['-', ' '], false, true)) by {
        assert(seq!['-'].push(' ') =~= seq!['-', ' ']);
    }
    assert(flush(e, seq!['-', ' '], false) =~= out1);
    assert(md_from(s, 2, e, seq!['-', ' '], false, true) == md_from(s, 4, out1, Seq::empty(), true, true));
    assert forall|m: int| 4 <= m < 4 + n implies #[trigger] s[m] != '*' && s[m] != '#' && s[m] != '-'
        && s[m] != '\n' by {
        assert(s[m] == t[m - 4]);
    }
    lemma_md_plain_run(s, 4, 4 + n, out1, Seq::empty(), true, true);
    assert(Seq::<char>::empty() + s.subrange(4, 4 + n) =~= t);
    let out2 = out1.push((t, true, false));
    assert(md_from(s, 4 + n, out1, t, true, true) == md_from(s, 6 + n, out2, Seq::empty(), false, true));
    lemma_md_keeps_prefix(s, 6 + n, out2, Seq::empty(), false, true);
    assert(md_from(s, 6 + n, out2, Seq::empty(), false, true)[0] == out2[0]);
    assert(md_from(s, 6 + n, out2, Seq::empty(), false, true)[1] == out2[1]);
}

/// Text between `**` markers is bold: a line made of `**`, a plain text `t`, `**`
/// and anything else starts with the bold span `t`.
pub proof fn law_bold_between_markers(t: Seq<char>, rest: Seq<char>)
    requires
        t.len() > 0,
        forall|m: int|
            0 <= m < t.len() ==> #[trigger] t[m] != '*' && t[m] != '#' && t[m] != '-' && t[m]
                != '\n',
    ensures
        markdown_spans(seq!['*', '*'] + t + seq!['*', '*'] + rest).len() >= 1,
        markdown_spans(seq!['*', '*'] + t + seq!['*', '*'] + rest)[0] == (t, true, false),
{
    let s = seq!['*', '*'] + t + seq!['*', '*'] + rest;
    let n = t.len() as int;
    assert(s[0] == '*' && s[1] == '*');
    assert(s.subrange(2, 2 + n) =~= t);
    assert(s[2 + n] == '*' && s[3 + n] == '*');
    let e: Seq<(Seq<char>, bool, bool)> = Seq::empty();
    assert(flush(e, Seq::empty(), false) == e);
    assert(md_from(s, 0, e, Seq::empty(), false, false) == md_from(s, 2, e, Seq::empty(), true, false));
    assert forall|m: int| 2 <= m < 2 + n implies #[trigger] s[m] != '*' && s[m] != '#' && s[m] != '-'
        && s[m] != '\n' by {
        assert(s[m] == t[m - 2]);
    }
    lemma_md_plain_run(s, 2, 2 + n, e, Seq::empty(), true, false);
    assert(Seq::<char>::empty() + s.subrange(2, 2 + n) =~= t);
    let out1 = e.push((t, true, false));
    assert(md_from(s, 2 + n, e, t, true, false) == md_from(s, 4 + n, out1, Seq::empty(), false, false));
    lemma_md_keeps_prefix(s, 4 + n, out1, Seq::empty(), false, false);
    assert(md_from(s, 4 + n, out1, Seq::empty(), false, false)[0] == out1[0]);
}

} // verus!
