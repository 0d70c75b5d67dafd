//! The line-oriented text buffer: an ordered sequence of lines with
//! position-addressed insert, delete, split and join operations.

use vstd::prelude::*;

use crate::text::join_text;
use crate::text::lemma_split_text_len;
use crate::text::chars_to_string;
use crate::text::split_chars;
use crate::text::split_text;
use crate::text::str_chars;

verus! {

/// Inserting one character before position `x` on row `y`.
pub open spec fn spec_insert_char(b: Seq<Seq<char>>, c: char, x: int, y: int) -> Seq<Seq<char>> {
    b.update(y, b[y].insert(x, c))
}

/// Removing the character at position `x` on row `y`.
pub open spec fn spec_delete_char(b: Seq<Seq<char>>, x: int, y: int) -> Seq<Seq<char>> {
    b.update(y, b[y].remove(x))
}

/// Splitting row `y` at column `x`: the tail becomes a new row below.
pub open spec fn spec_split_line(b: Seq<Seq<char>>, x: int, y: int) -> Seq<Seq<char>> {
    b.take(y) + seq![b[y].take(x), b[y].skip(x)] + b.skip(y + 1)
}

/// Joining row `y` with the row below it; the buffer is unchanged when
/// no row stands below `y`.
pub open spec fn spec_join_lines(b: Seq<Seq<char>>, y: int) -> Seq<Seq<char>> {
    if 0 <= y && y + 1 < b.len() {
        b.take(y) + seq![b[y] + b[y + 1]] + b.skip(y + 2)
    } else {
        b
    }
}

/// The document being edited. Its view is the sequence of lines, each a
/// sequence of characters without its line break. A well-formed buffer
/// always holds at least one line.
pub struct CodeBuffer {
    lines: Vec<Vec<char>>,
}

impl View for CodeBuffer {
    type V = Seq<Seq<char>>;

    closed spec fn view(&self) -> Seq<Seq<char>> {
        self.lines.deep_view()
    }
}

impl CodeBuffer {
    pub open spec fn wf(&self) -> bool {
        self@.len() >= 1
    }

    /// A buffer holding the given text, split into lines on the
    /// line-break character.
    pub fn new(buf: String) -> (r: Self)
        ensures
            r@ == split_text(buf@),
            r.wf(),
    {
        let cs = str_chars(buf.as_str());
        let lines = split_chars(&cs);
        proof {
            lemma_split_text_len(buf@);
        }
        CodeBuffer { lines }
    }

    /// Inserts `c` before column `x` on row `y`.
    pub fn insert(&mut self, c: char, x: usize, y: usize)
        requires
            y < old(self)@.len(),
            x <= old(self)@[y as int].len(),
        ensures
            final(self)@ == spec_insert_char(old(self)@, c, x as int, y as int),
    {
        proof {
            assert(self.lines@[y as int]@ =~= self@[y as int]);
        }
        let line = &mut self.lines[y];
        line.insert(x, c);
        proof {
            assert(final(self)@ =~~= spec_insert_char(old(self)@, c, x as int, y as int));
        }
    }

    /// Inserts the characters of `s` before column `x` on row `y`.
    pub fn insert_str(&mut self, s: &str, x: usize, y: usize)
        requires
            y < old(self)@.len(),
            x <= old(self)@[y as int].len(),
        ensures
            final(self)@ == old(self)@.update(
                y as int,
                old(self)@[y as int].take(x as int) + s@ + old(self)@[y as int].skip(x as int),
            ),
    {
        proof {
            assert(self.lines@[y as int]@ =~= self@[y as int]);
        }
        let cs = str_chars(s);
        let mut rebuilt: Vec<char> = Vec::new();
        let mut i: usize = 0;
        let ghost line = self@[y as int];
        while i < x
            invariant
                i <= x,
                x <= line.len(),
                line == self.lines@[y as int]@,
                y < self.lines@.len(),
                rebuilt@ == line.take(i as int),
            decreases x - i,
        {
            let ch = self.lines[y][i];
            rebuilt.push(ch);
            i = i + 1;
            proof {
                assert(rebuilt@ =~= line.take(i as int));
            }
        }
        let mut j: usize = 0;
        while j < cs.len()
            invariant
                j <= cs.len(),
                cs@ == s@,
                rebuilt@ == line.take(x as int) + cs@.take(j as int),
            decreases cs.len() - j,
        {
            rebuilt.push(cs[j]);
            j = j + 1;
            proof {
                assert(rebuilt@ =~= line.take(x as int) + cs@.take(j as int));
            }
        }
        let mut k: usize = x;
        while k < self.lines[y].len()
            invariant
                x <= k <= line.len(),
                line == self.lines@[y as int]@,
                y < self.lines@.len(),
                rebuilt@ == line.take(x as int) + s@ + line.skip(x as int).take(k - x as int),
            decreases line.len() - k,
        {
            let ch = self.lines[y][k];
            rebuilt.push(ch);
            k = k + 1;
            proof {
                assert(rebuilt@ =~= line.take(x as int) + s@ + line.skip(x as int).take(
                    k - x as int,
                ));
            }
        }
        proof {
            assert(rebuilt@ =~= line.take(x as int) + s@ + line.skip(x as int));
        }
        self.lines.set(y, rebuilt);
        proof {
            assert(final(self)@ =~~= old(self)@.update(
                y as int,
                old(self)@[y as int].take(x as int) + s@ + old(self)@[y as int].skip(x as int),
            ));
        }
    }

    /// Appends one empty line at the end of the buffer.
    pub fn insert_line(&mut self)
        ensures
            final(self)@ == old(self)@.push(Seq::<char>::empty()),
    {
        self.lines.push(Vec::new());
        proof {
            assert(final(self)@ =~~= old(self)@.push(Seq::<char>::empty()));
        }
    }

    /// Removes the character at column `x` on row `y`.
    pub fn delete(&mut self, x: usize, y: usize)
        requires
            y < old(self)@.len(),
            x < old(self)@[y as int].len(),
        ensures
            final(self)@ == spec_delete_char(old(self)@, x as int, y as int),
    {
        proof {
            assert(self.lines@[y as int]@ =~= self@[y as int]);
        }
        let line = &mut self.lines[y];
        line.remove(x);
        proof {
            assert(final(self)@ =~~= spec_delete_char(old(self)@, x as int, y as int));
        }
    }

    /// Joins row `y` and the row below it into row `y`; a no-op when no
    /// row stands below `y`.
    pub fn join_lines(&mut self, y: usize)
        requires
            old(self).wf(),
        ensures
            final(self)@ == spec_join_lines(old(self)@, y as int),
            final(self).wf(),
    {
        if y < self.lines.len() - 1 {
            proof {
                assert(self.lines@[y as int]@ =~= self@[y as int]);
                assert(self.lines@[y as int + 1]@ =~= self@[y as int + 1]);
            }
            let mut below = self.lines.remove(y + 1);
            let ghost mid = self.lines@;
            let line = &mut self.lines[y];
            let mut m: usize = 0;
            while m < below.len()
                invariant
                    m <= below@.len(),
                    below@ == old(self)@[y as int + 1],
                    line@ == old(self)@[y as int] + below@.take(m as int),
                decreases below@.len() - m,
            {
                let ch = below[m];
                line.push(ch);
                m = m + 1;
                proof {
                    assert(line@ =~= old(self)@[y as int] + below@.take(m as int));
                }
            }
            proof {
                assert(line@ =~= old(self)@[y as int] + old(self)@[y as int + 1]);
            }
            proof {
                assert(final(self)@ =~~= spec_join_lines(old(self)@, y as int));
            }
        }
    }

    /// Splits row `y` at column `x`; the tail becomes the row below.
    pub fn split_line(&mut self, x: usize, y: usize)
        requires
            y < old(self)@.len(),
            x <= old(self)@[y as int].len(),
        ensures
            final(self)@ == spec_split_line(old(self)@, x as int, y as int),
            final(self).wf(),
    {
        proof {
            assert(self.lines@[y as int]@ =~= self@[y as int]);
        }
        let ghost line = self@[y as int];
        let mut tail: Vec<char> = Vec::new();
        let mut i: usize = x;
        while i < self.lines[y].len()
            invariant
                x <= i <= line.len(),
                line == self.lines@[y as int]@,
                y < self.lines@.len(),
                tail@ == line.skip(x as int).take(i - x as int),
            decreases line.len() - i,
        {
            let ch = self.lines[y][i];
            tail.push(ch);
            i = i + 1;
            proof {
                assert(tail@ =~= line.skip(x as int).take(i - x as int));
            }
        }
        proof {
            assert(tail@ =~= line.skip(x as int));
        }
        let head = &mut self.lines[y];
        head.truncate(x);
        proof {
            assert(head@ =~= line.take(x as int));
        }
        let count = self.lines.len();
        proof {
            assert(y < count);
        }
        self.lines.insert(y + 1, tail);
        proof {
            assert(final(self)@ =~~= spec_split_line(old(self)@, x as int, y as int));
        }
    }

    /// The number of lines in the buffer.
    pub fn line_count(&self) -> (r: usize)
        ensures
            r == self@.len(),
    {
        self.lines.len()
    }

    /// The length in characters of row `y`.
    pub fn line_length(&self, y: usize) -> (r: usize)
        requires
            y < self@.len(),
        ensures
            r == self@[y as int].len(),
    {
        proof {
            assert(self.lines@[y as int]@ =~= self@[y as int]);
        }
        self.lines[y].len()
    }

    /// The persisted form of the buffer: all lines joined with a single
    /// line-break character.
    pub fn serialize(&self) -> (r: String)
        requires
            self.wf(),
        ensures
            r@ == join_text(self@),
    {
        let mut acc: Vec<char> = Vec::new();
        let mut i: usize = 0;
        while i < self.lines.len()
            invariant
                i <= self@.len(),
                self@.len() == self.lines@.len(),
                i > 0 ==> acc@ == join_text(self@.take(i as int)),
                i == 0 ==> acc@ == Seq::<char>::empty(),
            decreases self@.len() - i,
        {
            if i > 0 {
                acc.push('\n');
            }
            let ghost pre = acc@;
            let ghost line = self@[i as int];
            proof {
                assert(self.lines@[i as int]@ =~= self@[i as int]);
            }
            let mut m: usize = 0;
            while m < self.lines[i].len()
                invariant
                    i < self.lines@.len(),
                    line == self.lines@[i as int]@,
                    m <= line.len(),
                    acc@ == pre + line.take(m as int),
                decreases line.len() - m,
            {
                let ch = self.lines[i][m];
                acc.push(ch);
                m = m + 1;
                proof {
                    assert(acc@ =~= pre + line.take(m as int));
                }
            }
            proof {
                assert(acc@ =~= pre + line);
                lemma_join_text_take(self@, i as int + 1);
                if i > 0 {
                    assert(acc@ =~= join_text(self@.take(i as int + 1)));
                } else {
                    assert(acc@ =~= join_text(self@.take(1)));
                }
            }
            i = i + 1;
        }
        proof {
            assert(self@.take(self@.len() as int) =~= self@);
        }
        chars_to_string(&acc)
    }

    /// The lines of the buffer as strings, for rendering.
    pub fn get_lines(&self) -> (r: Vec<String>)
        ensures
            r.deep_view() == self@,
    {
        let mut r: Vec<String> = Vec::new();
        let mut i: usize = 0;
        while i < self.lines.len()
            invariant
                i <= self@.len(),
                self@.len() == self.lines@.len(),
                r@.len() == i as int,
                forall|k: int| 0 <= k < i as int ==> r@[k]@ == self@[k],
            decreases self@.len() - i,
        {
            proof {
                assert(self.lines@[i as int]@ =~= self@[i as int]);
            }
            let line = chars_to_string(&self.lines[i]);
            r.push(line);
            i = i + 1;
        }
        proof {
            assert forall|k: int| 0 <= k < self@.len() implies r.deep_view()[k] == self@[k] by {
                assert(r@[k]@ == self@[k]);
            }
            assert(r.deep_view() =~= self@);
        }
        r
    }
}

/// Joining the first `i + 1` lines extends joining the first `i` by a
/// line break and line `i`.
proof fn lemma_join_text_take(ls: Seq<Seq<char>>, i: int)
    requires
        1 <= i <= ls.len(),
    ensures
        i == 1 ==> join_text(ls.take(1)) == ls[0],
        i > 1 ==> join_text(ls.take(i)) == join_text(ls.take(i - 1)) + seq!['\n'] + ls[i - 1],
    decreases i,
{
    if i == 1 {
        assert(ls.take(1) =~= seq![ls[0]]);
    } else {
        lemma_join_text_take(ls, i - 1);
        lemma_join_text_push(ls.take(i - 1), ls[i - 1]);
        assert(ls.take(i - 1).push(ls[i - 1]) =~= ls.take(i));
    }
}

/// Appending one line to a non-empty line sequence appends a line break
/// and that line to the joined text.
proof fn lemma_join_text_push(ls: Seq<Seq<char>>, l: Seq<char>)
    requires
        ls.len() >= 1,
    ensures
        join_text(ls.push(l)) == join_text(ls) + seq!['\n'] + l,
    decreases ls.len(),
{
    if ls.len() == 1 {
        assert(ls.push(l) =~= seq![ls[0], l]);
        assert(ls.push(l).drop_first() =~= seq![l]);
        assert(join_text(seq![l]) == l);
        assert(join_text(ls.push(l)) == ls.push(l)[0] + seq!['\n'] + join_text(
            ls.push(l).drop_first(),
        ));
        assert(ls.take(1) =~= ls);
        assert(join_text(ls) == ls[0]);
        assert(join_text(ls.push(l)) == ls[0] + seq!['\n'] + l);
    } else {
        lemma_join_text_push(ls.drop_first(), l);
        assert(ls.push(l).drop_first() =~= ls.drop_first().push(l));
        assert(join_text(ls.push(l)) == ls[0] + seq!['\n'] + join_text(ls.drop_first().push(l)));
        assert(join_text(ls) + seq!['\n'] + l =~= ls[0] + seq!['\n'] + (join_text(ls.drop_first())
            + seq!['\n'] + l));
        assert(join_text(ls.push(l)) =~= join_text(ls) + seq!['\n'] + l);
    }
}

/// Splitting a row and joining at the same row restores the buffer
/// exactly.
pub proof fn lemma_split_join_round_trip(b: Seq<Seq<char>>, x: int, y: int)
    requires
        0 <= y < b.len(),
        0 <= x <= b[y].len(),
    ensures
        spec_join_lines(spec_split_line(b, x, y), y) == b,
{
    let s = spec_split_line(b, x, y);
    assert(s.len() == b.len() + 1);
    assert(s[y] == b[y].take(x));
    assert(s[y + 1] == b[y].skip(x));
    assert(s[y] + s[y + 1] =~= b[y]);
    assert(spec_join_lines(s, y) =~~= b);
}

/// Inserting a character and deleting at the same position restores the
/// buffer exactly.
pub proof fn lemma_insert_delete_round_trip(b: Seq<Seq<char>>, c: char, x: int, y: int)
    requires
        0 <= y < b.len(),
        0 <= x <= b[y].len(),
    ensures
        spec_delete_char(spec_insert_char(b, c, x, y), x, y) == b,
{
    let ins = spec_insert_char(b, c, x, y);
    assert(ins[y] == b[y].insert(x, c));
    assert(ins[y].remove(x) =~= b[y]);
    assert(spec_delete_char(ins, x, y) =~~= b);
}

} // verus!
