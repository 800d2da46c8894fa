//! Entry parser: turns the raw text body of one dictionary file into
//! vocabulary entries and the 1-indexed positions of its invalid lines.
//!
//! The body is processed line by line. A line consisting only of whitespace
//! is invalid; any other line is handed to the external engine's line parser,
//! and recorded as invalid when that parse fails. Entries keep their source
//! order; invalid line numbers are collected in ascending order with no
//! renumbering. Parsing never fails as a whole: a body whose every line is
//! invalid yields no entries and a full invalid-line report.

use vstd::prelude::*;
use vstd::string::StrSliceExecFns;

use crate::engine::{parse_line, parse_result};

verus! {

/// The characters `str::trim` removes: Unicode whitespace.
pub open spec fn is_space_char(c: char) -> bool {
    let u = c as u32;
    ||| u == 0x09
    ||| u == 0x0a
    ||| u == 0x0b
    ||| u == 0x0c
    ||| u == 0x0d
    ||| u == 0x20
    ||| u == 0x85
    ||| u == 0xa0
    ||| u == 0x1680
    ||| (0x2000 <= u && u <= 0x200a)
    ||| u == 0x2028
    ||| u == 0x2029
    ||| u == 0x202f
    ||| u == 0x205f
    ||| u == 0x3000
}

/// A line that holds nothing but whitespace.
pub open spec fn is_blank(l: Seq<char>) -> bool {
    forall|i: int| 0 <= i < l.len() ==> is_space_char(l[i])
}

/// A line that produces a vocabulary entry: not blank, and accepted by the
/// engine's line parser.
pub open spec fn line_valid(l: Seq<char>) -> bool {
    !is_blank(l) && parse_result(l) is Some
}

/// Number of characters before the first line feed of `s` (or all of `s`
/// when it has none).
pub open spec fn line_break_index(s: Seq<char>) -> int
    decreases s.len(),
{
    if s.len() == 0 {
        0
    } else if s[0] == '\n' {
        0
    } else {
        1 + line_break_index(s.drop_first())
    }
}

proof fn lemma_line_break_index(s: Seq<char>)
    ensures
        0 <= line_break_index(s) <= s.len(),
        forall|k: int| 0 <= k < line_break_index(s) ==> s[k] != '\n',
        line_break_index(s) < s.len() ==> s[line_break_index(s)] == '\n',
    decreases s.len(),
{
    if s.len() == 0 {
    } else if s[0] == '\n' {
    } else {
        lemma_line_break_index(s.drop_first());
        assert forall|k: int| 0 <= k < line_break_index(s) implies s[k] != '\n' by {
            if k > 0 {
                assert(s.drop_first()[k - 1] == s[k]);
            }
        }
        if line_break_index(s) < s.len() {
            assert(s.drop_first()[line_break_index(s) - 1] == s[line_break_index(s)]);
        }
    }
}

/// `line_break_index` is the unique position with no line feed before it and
/// a line feed (or the end of `s`) at it.
proof fn lemma_line_break_index_is(s: Seq<char>, j: int)
    requires
        0 <= j <= s.len(),
        forall|k: int| 0 <= k < j ==> s[k] != '\n',
        j < s.len() ==> s[j] == '\n',
    ensures
        line_break_index(s) == j,
    decreases j,
{
    if j == 0 {
    } else {
        assert(s[0] != '\n');
        assert forall|k: int| 0 <= k < j - 1 implies s.drop_first()[k] != '\n' by {
            assert(s.drop_first()[k] == s[k + 1]);
        }
        if j - 1 < s.drop_first().len() {
            assert(s.drop_first()[j - 1] == s[j]);
        }
        lemma_line_break_index_is(s.drop_first(), j - 1);
    }
}

/// One trailing carriage return removed, if present.
pub open spec fn strip_carriage_return(l: Seq<char>) -> Seq<char> {
    if l.len() > 0 && l[l.len() - 1] == '\r' {
        l.drop_last()
    } else {
        l
    }
}

/// The lines of a body, split at line feeds. A terminated line loses its
/// line feed and one carriage return just before it; a final line feed
/// produces no empty last line; a final line without a terminator is kept
/// whole, a trailing carriage return included. This matches how
/// `str::lines` cuts a body.
pub open spec fn split_lines(s: Seq<char>) -> Seq<Seq<char>>
    decreases s.len() via split_lines_decreases
{
    if s.len() == 0 {
        Seq::empty()
    } else {
        let i = line_break_index(s);
        if i >= s.len() {
            seq![s]
        } else {
            seq![strip_carriage_return(s.take(i))] + split_lines(s.skip(i + 1))
        }
    }
}

#[via_fn]
proof fn split_lines_decreases(s: Seq<char>) {
    lemma_line_break_index(s);
}

/// The entries the valid lines produce, in source order.
pub open spec fn entries_of(lines: Seq<Seq<char>>) -> Seq<typing_engine::VocabularyEntry>
    decreases lines.len(),
{
    if lines.len() == 0 {
        Seq::empty()
    } else {
        entries_of(lines.drop_last()) + (if line_valid(lines.last()) {
            seq![parse_result(lines.last()).unwrap()]
        } else {
            Seq::empty()
        })
    }
}

/// The 1-indexed numbers of the invalid lines, ascending.
pub open spec fn invalid_of(lines: Seq<Seq<char>>) -> Seq<int>
    decreases lines.len(),
{
    if lines.len() == 0 {
        Seq::empty()
    } else {
        invalid_of(lines.drop_last()) + (if line_valid(lines.last()) {
            Seq::empty()
        } else {
            seq![lines.len() as int]
        })
    }
}

/// Every line of a body is classified exactly once, as a parsed entry or as
/// an invalid line number: the two counts always sum to the line count.
pub proof fn lemma_line_classification(lines: Seq<Seq<char>>)
    ensures
        entries_of(lines).len() + invalid_of(lines).len() == lines.len(),
    decreases lines.len(),
{
    if lines.len() == 0 {
    } else {
        lemma_line_classification(lines.drop_last());
    }
}

/// The views of a vector of lines.
pub open spec fn views_of(lines: Seq<Vec<char>>) -> Seq<Seq<char>> {
    lines.map_values(|l: Vec<char>| l@)
}

fn is_space(c: char) -> (b: bool)
    ensures
        b == is_space_char(c),
{
    let u = c as u32;
    u == 0x09 || u == 0x0a || u == 0x0b || u == 0x0c || u == 0x0d || u == 0x20 || u == 0x85
        || u == 0xa0 || u == 0x1680 || (0x2000 <= u && u <= 0x200a) || u == 0x2028 || u == 0x2029
        || u == 0x202f || u == 0x205f || u == 0x3000
}

fn is_blank_line(line: &Vec<char>) -> (b: bool)
    ensures
        b == is_blank(line@),
{
    let mut k: usize = 0;
    while k < line.len()
        invariant
            k <= line@.len(),
            forall|t: int| 0 <= t < k ==> is_space_char(line@[t]),
        decreases line@.len() - k,
    {
        if !is_space(line[k]) {
            return false;
        }
        k = k + 1;
    }
    true
}

/// The characters of a body, in order.
fn chars_of_str(s: &str) -> (r: Vec<char>)
    ensures
        r@ == s@,
{
    let n: usize = s.unicode_len();
    let mut r: Vec<char> = Vec::new();
    let mut i: usize = 0;
    while i < n
        invariant
            n == s@.len(),
            i <= n,
            r@ == s@.take(i as int),
        decreases n - i,
    {
        r.push(s.get_char(i));
        i = i + 1;
        proof {
            assert(r@ =~= s@.take(i as int));
        }
    }
    proof {
        assert(s@.take(n as int) =~= s@);
    }
    r
}

/// Splits a body into its lines, as `split_lines` describes.
fn split_body_lines(chars: &Vec<char>) -> (lines: Vec<Vec<char>>)
    ensures
        views_of(lines@) == split_lines(chars@),
{
    let n: usize = chars.len();
    let mut lines: Vec<Vec<char>> = Vec::new();
    let mut pos: usize = 0;
    proof {
        assert(views_of(lines@) =~= Seq::<Seq<char>>::empty());
        assert(chars@.skip(0) =~= chars@);
    }
    while pos < n
        invariant
            n == chars@.len(),
            pos <= n,
            views_of(lines@) + split_lines(chars@.skip(pos as int)) == split_lines(chars@),
        decreases n - pos,
    {
        let ghost rest = chars@.skip(pos as int);
        let mut j: usize = pos;
        while j < n && chars[j] != '\n'
            invariant
                n == chars@.len(),
                pos <= j <= n,
                forall|k: int| pos <= k < j ==> chars@[k] != '\n',
            decreases n - j,
        {
            j = j + 1;
        }
        proof {
            assert forall|k: int| 0 <= k < j - pos implies rest[k] != '\n' by {
                assert(rest[k] == chars@[pos + k]);
            }
            if j < n {
                assert(rest[j - pos] == chars@[j as int]);
            }
            lemma_line_break_index_is(rest, j - pos);
        }
        let end: usize = if j < n && j > pos && chars[j - 1] == '\r' {
            j - 1
        } else {
            j
        };
        let mut line: Vec<char> = Vec::new();
        let mut k: usize = pos;
        while k < end
            invariant
                pos <= k <= end,
                end <= n,
                n == chars@.len(),
                line@ == chars@.subrange(pos as int, k as int),
            decreases end - k,
        {
            line.push(chars[k]);
            k = k + 1;
            proof {
                assert(line@ =~= chars@.subrange(pos as int, k as int));
            }
        }
        proof {
            assert(rest.take(j - pos) =~= chars@.subrange(pos as int, j as int));
        }
        let ghost lines_pre = lines@;
        lines.push(line);
        proof {
            assert(views_of(lines@) =~= views_of(lines_pre).push(line@));
        }
        if j == n {
            proof {
                assert(rest.len() > 0);
                assert(line_break_index(rest) >= rest.len());
                assert(line@ =~= rest);
                assert(split_lines(rest) == seq![rest]);
                assert(views_of(lines_pre).push(line@) =~= views_of(lines_pre) + split_lines(
                    rest,
                ));
                assert(chars@.skip(n as int) =~= Seq::<char>::empty());
            }
            pos = n;
        } else {
            proof {
                if j > pos && chars@[j - 1] == '\r' {
                    assert(strip_carriage_return(rest.take(j - pos)) =~= chars@.subrange(
                        pos as int,
                        end as int,
                    ));
                } else {
                    assert(strip_carriage_return(rest.take(j - pos)) =~= chars@.subrange(
                        pos as int,
                        end as int,
                    ));
                }
                assert(line@ == strip_carriage_return(rest.take(j - pos)));
                assert(line_break_index(rest) == j - pos < rest.len());
                assert(split_lines(rest) == seq![
                    strip_carriage_return(rest.take(j - pos)),
                ] + split_lines(rest.skip(j - pos + 1)));
                assert(rest.skip(j - pos + 1) =~= chars@.skip(j + 1));
                assert(views_of(lines_pre).push(line@) + split_lines(chars@.skip(j + 1))
                    =~= views_of(lines_pre) + split_lines(rest));
            }
            pos = j + 1;
        }
    }
    proof {
        assert(chars@.skip(pos as int) =~= Seq::<char>::empty());
    }
    lines
}

/// Parses the body of one dictionary file into its vocabulary entries and
/// the 1-indexed numbers of its invalid lines.
pub fn parse_dictionary_body(body: &str) -> (r: (
    Vec<typing_engine::VocabularyEntry>,
    Vec<usize>,
))
    ensures
        r.0@ == entries_of(split_lines(body@)),
        r.1@.map_values(|u: usize| u as int) == invalid_of(split_lines(body@)),
{
    let chars = chars_of_str(body);
    let lines = split_body_lines(&chars);
    let ghost lv = views_of(lines@);
    let mut entries: Vec<typing_engine::VocabularyEntry> = Vec::new();
    let mut invalid: Vec<usize> = Vec::new();
    let mut i: usize = 0;
    proof {
        assert(lv.take(0) =~= Seq::<Seq<char>>::empty());
        assert(invalid@.map_values(|u: usize| u as int) =~= Seq::<int>::empty());
    }
    while i < lines.len()
        invariant
            lv == views_of(lines@),
            i <= lines@.len(),
            entries@ == entries_of(lv.take(i as int)),
            invalid@.map_values(|u: usize| u as int) == invalid_of(lv.take(i as int)),
        decreases lines@.len() - i,
    {
        let ghost entries_pre = entries@;
        let ghost invalid_pre = invalid@;
        let line = &lines[i];
        if is_blank_line(line) {
            invalid.push(i + 1);
        } else {
            match parse_line(line) {
                Some(e) => entries.push(e),
                None => invalid.push(i + 1),
            }
        }
        proof {
            let iplus = i + 1 as int;
            assert(lv.take(iplus).drop_last() =~= lv.take(i as int));
            assert(lv.take(iplus).last() == lines@[i as int]@);
            if is_blank(lines@[i as int]@) || parse_result(lines@[i as int]@) is None {
                assert(!line_valid(lv.take(iplus).last()));
                assert(invalid@ =~= invalid_pre.push((i + 1) as usize));
                assert(invalid@.map_values(|u: usize| u as int) =~= invalid_pre.map_values(
                    |u: usize| u as int,
                ).push(iplus));
                assert(lv.take(iplus).len() as int == iplus);
            } else {
                assert(line_valid(lv.take(iplus).last()));
                assert(entries@ =~= entries_pre.push(
                    parse_result(lines@[i as int]@).unwrap(),
                ));
            }
            assert(entries@ == entries_of(lv.take(iplus)));
            assert(invalid@.map_values(|u: usize| u as int) == invalid_of(lv.take(iplus)));
        }
        i = i + 1;
    }
    proof {
        assert(lv.take(lines@.len() as int) =~= lv);
    }
    (entries, invalid)
}

} // verus!
