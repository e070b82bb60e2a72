//! Joining lines of text.
use vstd::prelude::*;
use crate::text::push_char;

verus! {

broadcast use vstd::string::group_string_axioms;

/// `lines` joined with `\n` between them.
pub open spec fn join_lines(lines: Seq<Seq<char>>) -> Seq<char>
    decreases lines.len(),
{
    if lines.len() == 0 {
        Seq::empty()
    } else if lines.len() == 1 {
        lines[0]
    } else {
        join_lines(lines.drop_last()) + seq!['\n'] + lines.last()
    }
}

/// The texts of a list of strings.
pub open spec fn views(v: Seq<String>) -> Seq<Seq<char>> {
    v.map_values(|s: String| s@)
}

/// `lines` joined with `\n` between them; see [`join_lines`].
pub fn join(lines: &Vec<String>) -> (r: String)
    ensures
        r@ == join_lines(views(lines@)),
{
    let mut r = String::new();
    let mut i: usize = 0;
    while i < lines.len()
        invariant
            i <= lines.len(),
            r@ == join_lines(views(lines@.subrange(0, i as int))),
        decreases lines.len() - i,
    {
        let ghost before = lines@.subrange(0, i as int);
        let ghost after = lines@.subrange(0, i + 1);
        assert(views(after).drop_last() =~= views(before));
        if i > 0 {
            push_char(&mut r, '\n');
        }
        r.append(lines[i].as_str());
        i = i + 1;
        proof {
            if i == 1 {
                assert(views(after) =~= seq![lines@[0]@]);
                assert(r@ =~= join_lines(views(after)));
            } else {
                assert(r@ =~= join_lines(views(after)));
            }
        }
    }
    assert(lines@.subrange(0, lines@.len() as int) =~= lines@);
    r
}

/// A growing list of lines.
pub struct Lines {
    pub items: Vec<String>,
}

impl Lines {
    pub fn new() -> (l: Lines)
        ensures
            views(l.items@) == Seq::<Seq<char>>::empty(),
    {
        let l = Lines { items: Vec::new() };
        assert(views(l.items@) =~= Seq::<Seq<char>>::empty());
        l
    }

    /// Appends one line.
    pub fn add(&mut self, line: String)
        ensures
            views(final(self).items@) == views(old(self).items@).push(line@),
    {
        let ghost before = self.items@;
        self.items.push(line);
        assert(views(self.items@) =~= views(before).push(line@));
    }

    /// Appends one line copied from `line`.
    pub fn add_str(&mut self, line: &str)
        ensures
            views(final(self).items@) == views(old(self).items@).push(line@),
    {
        self.add(line.to_owned());
    }

    /// The lines joined with `\n`.
    pub fn joined(&self) -> (r: String)
        ensures
            r@ == join_lines(views(self.items@)),
    {
        join(&self.items)
    }
}

} // verus!
