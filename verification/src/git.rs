//! Reading `git status --porcelain=v1 --branch` output into the counts that
//! target packs report.
use vstd::prelude::*;
use crate::text::{chars_of, string_of};

verus! {

broadcast use vstd::string::group_string_axioms;

/// Index of the first `\n` in `s`, or -1.
pub open spec fn newline_index(s: Seq<char>) -> int
    decreases s.len(),
{
    if s.len() == 0 {
        -1
    } else if s[0] == '\n' {
        0
    } else {
        let k = newline_index(s.drop_first());
        if k < 0 {
            -1
        } else {
            k + 1
        }
    }
}

/// `s` without one trailing `\r`.
pub open spec fn strip_cr(s: Seq<char>) -> Seq<char> {
    if s.len() > 0 && s.last() == '\r' {
        s.drop_last()
    } else {
        s
    }
}

/// The lines of `s` as `str::lines` gives them: split at `\n` or `\r\n`,
/// with an optional final line ending.
pub open spec fn split_lines(s: Seq<char>) -> Seq<Seq<char>>
    decreases s.len(),
{
    if s.len() == 0 {
        Seq::empty()
    } else {
        let i = newline_index(s);
        proof {
            lemma_newline_bound(s);
        }
        if i < 0 {
            seq![s]
        } else {
            seq![strip_cr(s.subrange(0, i))] + split_lines(s.subrange(i + 1, s.len() as int))
        }
    }
}

/// `newline_index` is -1 or a position inside `s`.
pub proof fn lemma_newline_bound(s: Seq<char>)
    ensures
        -1 <= newline_index(s) < s.len(),
    decreases s.len(),
{
    if s.len() > 0 && s[0] != '\n' {
        lemma_newline_bound(s.drop_first());
    }
}

proof fn lemma_newline_index(s: Seq<char>, k: int)
    requires
        0 <= k <= s.len(),
        forall|j: int| 0 <= j < k ==> s[j] != '\n',
    ensures
        k < s.len() && s[k] == '\n' ==> newline_index(s) == k,
        k == s.len() ==> newline_index(s) == -1,
    decreases k,
{
    if k > 0 {
        lemma_newline_index(s.drop_first(), k - 1);
    }
}

/// The kind of one status line.
pub open spec fn is_branch_line(l: Seq<char>) -> bool {
    l.len() >= 3 && l[0] == '#' && l[1] == '#' && l[2] == ' '
}

pub open spec fn is_untracked_line(l: Seq<char>) -> bool {
    l.len() >= 2 && l[0] == '?' && l[1] == '?'
}

/// Whether a change line has a staged part: its first column is not blank.
pub open spec fn staged_line(l: Seq<char>) -> bool {
    !is_branch_line(l) && !is_untracked_line(l) && l.len() >= 1 && l[0] != ' '
}

/// Whether a change line has an unstaged part: the second byte of its UTF-8
/// text is present and not a blank. When the first character is ASCII that
/// byte starts the second character; otherwise it continues the first
/// character and is never a blank.
pub open spec fn unstaged_line(l: Seq<char>) -> bool {
    &&& !is_branch_line(l)
    &&& !is_untracked_line(l)
    &&& l.len() >= 1
    &&& ((l[0] as u32) >= 0x80 || (l.len() >= 2 && l[1] != ' '))
}

pub open spec fn changed_line(l: Seq<char>) -> bool {
    !is_branch_line(l)
}

/// How many of `lines` satisfy `p`.
pub open spec fn count_lines(lines: Seq<Seq<char>>, p: spec_fn(Seq<char>) -> bool) -> nat
    decreases lines.len(),
{
    if lines.len() == 0 {
        0
    } else {
        count_lines(lines.drop_last(), p) + if p(lines.last()) {
            1nat
        } else {
            0nat
        }
    }
}

/// The last branch line, or nothing.
pub open spec fn last_branch_line(lines: Seq<Seq<char>>) -> Seq<char>
    decreases lines.len(),
{
    if lines.len() == 0 {
        Seq::empty()
    } else if is_branch_line(lines.last()) {
        lines.last()
    } else {
        last_branch_line(lines.drop_last())
    }
}

/// The counts read from a status listing.
#[derive(Debug)]
pub struct GitCounts {
    /// The last `## ` line, or empty.
    pub branch_status: String,
    pub staged: u64,
    pub unstaged: u64,
    pub untracked: u64,
    /// Every line that is not a branch line.
    pub changed: u64,
}

/// Whether `c` holds the counts of `lines`.
pub open spec fn counts_of(lines: Seq<Seq<char>>, c: GitCounts) -> bool {
    &&& c.branch_status@ == last_branch_line(lines)
    &&& c.staged == count_lines(lines, |l: Seq<char>| staged_line(l))
    &&& c.unstaged == count_lines(lines, |l: Seq<char>| unstaged_line(l))
    &&& c.untracked == count_lines(lines, |l: Seq<char>| is_untracked_line(l))
    &&& c.changed == count_lines(lines, |l: Seq<char>| changed_line(l))
}

proof fn lemma_count_push(lines: Seq<Seq<char>>, l: Seq<char>, p: spec_fn(Seq<char>) -> bool)
    ensures
        count_lines(lines.push(l), p) == count_lines(lines, p) + if p(l) {
            1nat
        } else {
            0nat
        },
        count_lines(lines, p) <= lines.len(),
    decreases lines.len(),
{
    assert(lines.push(l).drop_last() =~= lines);
    if lines.len() > 0 {
        lemma_count_push(lines.drop_last(), lines.last(), p);
        assert(lines.drop_last().push(lines.last()) =~= lines);
    }
}

fn has_prefix(l: &Vec<char>, a: char, b: char) -> (r: bool)
    ensures
        r == (l@.len() >= 2 && l@[0] == a && l@[1] == b),
{
    l.len() >= 2 && l[0] == a && l[1] == b
}

/// Adds one line to the running counts.
fn tally_line(c: &mut GitCounts, line: &Vec<char>, Ghost(done): Ghost<Seq<Seq<char>>>)
    requires
        counts_of(done, *old(c)),
        done.len() < u64::MAX,
    ensures
        counts_of(done.push(line@), *final(c)),
{
    proof {
        lemma_count_push(done, line@, |l: Seq<char>| staged_line(l));
        lemma_count_push(done, line@, |l: Seq<char>| unstaged_line(l));
        lemma_count_push(done, line@, |l: Seq<char>| is_untracked_line(l));
        lemma_count_push(done, line@, |l: Seq<char>| changed_line(l));
        assert(done.push(line@).drop_last() =~= done);
    }
    let branch = line.len() >= 3 && line[0] == '#' && line[1] == '#' && line[2] == ' ';
    if branch {
        c.branch_status = string_of(line);
        return;
    }
    if has_prefix(line, '?', '?') {
        c.untracked = c.untracked + 1;
        c.changed = c.changed + 1;
        return;
    }
    if line.len() >= 1 && line[0] != ' ' {
        c.staged = c.staged + 1;
    }
    if line.len() >= 1 && ((line[0] as u32) >= 0x80 || (line.len() >= 2 && line[1] != ' ')) {
        c.unstaged = c.unstaged + 1;
    }
    c.changed = c.changed + 1;
}

/// Reads the counts out of a status listing; see [`counts_of`] and
/// [`split_lines`].
pub fn parse_git_status(text: &str) -> (c: GitCounts)
    ensures
        counts_of(split_lines(text@), c),
{
    let s = chars_of(text);
    let mut c = GitCounts {
        branch_status: String::new(),
        staged: 0,
        unstaged: 0,
        untracked: 0,
        changed: 0,
    };
    let ghost mut done: Seq<Seq<char>> = Seq::empty();
    let mut line: Vec<char> = Vec::new();
    let mut start: usize = 0;
    let mut i: usize = 0;
    assert(s@.subrange(0, s@.len() as int) =~= s@);
    while i < s.len()
        invariant
            s@ == text@,
            start <= i <= s.len(),
            line@ == s@.subrange(start as int, i as int),
            forall|j: int| start <= j < i ==> s@[j] != '\n',
            split_lines(s@) == done + split_lines(s@.subrange(start as int, s@.len() as int)),
            counts_of(done, c),
            done.len() <= start,
        decreases s.len() - i,
    {
        if s[i] == '\n' {
            let ghost rest = s@.subrange(start as int, s@.len() as int);
            proof {
                assert forall|j: int| 0 <= j < i - start implies rest[j] != '\n' by {
                    assert(rest[j] == s@[start + j]);
                }
                lemma_newline_index(rest, i - start);
                assert(rest.subrange(0, i - start) =~= line@);
                assert(rest.subrange(i - start + 1, rest.len() as int) =~= s@.subrange(
                    i + 1,
                    s@.len() as int,
                ));
            }
            let mut l = line;
            if l.len() > 0 && l[l.len() - 1] == '\r' {
                l.pop();
            }
            assert(l@ == strip_cr(rest.subrange(0, i - start)));
            tally_line(&mut c, &l, Ghost(done));
            proof {
                assert(done.push(l@) + split_lines(s@.subrange(i + 1, s@.len() as int)) =~= done
                    + (seq![l@] + split_lines(s@.subrange(i + 1, s@.len() as int))));
                done = done.push(l@);
            }
            line = Vec::new();
            start = i + 1;
        } else {
            line.push(s[i]);
        }
        i = i + 1;
        assert(line@ =~= s@.subrange(start as int, i as int));
    }
    let ghost rest = s@.subrange(start as int, s@.len() as int);
    assert(rest =~= line@);
    if line.len() > 0 {
        proof {
            lemma_newline_index(rest, rest.len() as int);
        }
        tally_line(&mut c, &line, Ghost(done));
        proof {
            assert(split_lines(rest) == seq![rest]);
            assert(done + seq![rest] =~= done.push(line@));
        }
    } else {
        assert(done + split_lines(rest) =~= done);
    }
    c
}

} // verus!
