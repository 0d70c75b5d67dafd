//! Plain-text helpers: splitting a document into lines on the line-break
//! character and joining lines back, together with the spec-level model
//! of both operations.

use vstd::prelude::*;

verus! {

/// The model of splitting a text on `'\n'`: always at least one part,
/// the empty text giving one empty part.
pub open spec fn split_text(s: Seq<char>) -> Seq<Seq<char>>
    decreases s.len(),
{
    if s.len() == 0 {
        seq![Seq::<char>::empty()]
    } else if s[0] == '\n' {
        seq![Seq::<char>::empty()] + split_text(s.drop_first())
    } else {
        let rest = split_text(s.drop_first());
        seq![seq![s[0]] + rest[0]] + rest.drop_first()
    }
}

/// The model of joining lines with a single `'\n'` between them.
pub open spec fn join_text(ls: Seq<Seq<char>>) -> Seq<char>
    decreases ls.len(),
{
    if ls.len() == 0 {
        Seq::<char>::empty()
    } else if ls.len() == 1 {
        ls[0]
    } else {
        ls[0] + seq!['\n'] + join_text(ls.drop_first())
    }
}

pub proof fn lemma_split_text_len(s: Seq<char>)
    ensures
        split_text(s).len() >= 1,
    decreases s.len(),
{
    if s.len() == 0 {
    } else {
        lemma_split_text_len(s.drop_first());
    }
}

/// Joining the parts of a split restores the text: `split_text` keeps
/// every character, and `join_text` is its exact inverse.
pub proof fn lemma_join_split_text(s: Seq<char>)
    ensures
        join_text(split_text(s)) == s,
    decreases s.len(),
{
    lemma_split_text_len(s);
    if s.len() == 0 {
        assert(join_text(split_text(s)) =~= s);
    } else if s[0] == '\n' {
        lemma_join_split_text(s.drop_first());
        lemma_split_text_len(s.drop_first());
        assert(split_text(s).drop_first() =~= split_text(s.drop_first()));
        assert(join_text(split_text(s)) =~= s);
    } else {
        lemma_join_split_text(s.drop_first());
        lemma_split_text_len(s.drop_first());
        let rest = split_text(s.drop_first());
        assert(split_text(s) == seq![seq![s[0]] + rest[0]] + rest.drop_first());
        if rest.len() == 1 {
            assert(split_text(s) =~= seq![seq![s[0]] + rest[0]]);
            assert(join_text(rest) == rest[0]);
            assert(join_text(split_text(s)) == seq![s[0]] + rest[0]);
            assert(seq![s[0]] + s.drop_first() =~= s);
            assert(join_text(split_text(s)) =~= s);
        } else {
            assert(split_text(s).drop_first() =~= rest.drop_first());
            assert(split_text(s)[0] == seq![s[0]] + rest[0]);
            let j = join_text(rest.drop_first());
            assert(join_text(rest) == rest[0] + seq!['\n'] + j);
            assert(join_text(split_text(s)) == seq![s[0]] + rest[0] + seq!['\n'] + j);
            assert(seq![s[0]] + rest[0] + seq!['\n'] + j =~= seq![s[0]] + s.drop_first());
            assert(seq![s[0]] + s.drop_first() =~= s);
            assert(join_text(split_text(s)) == s);
        }
    }
}

/// The characters of a string slice, in order.
pub fn str_chars(s: &str) -> (r: Vec<char>)
    ensures
        r@ == s@,
{
    let mut r: Vec<char> = Vec::new();
    for c in it: s.chars()
        invariant
            it.seq() == s@,
            r@ == it.seq().take(it.index() as int),
    {
        r.push(c);
    }
    proof {
        assert(r@ =~= s@);
    }
    r
}

/// Relies on `String::push`: appends the given character to the end of
/// the string.
#[verifier::external_body]
pub(crate) fn push_char(s: &mut String, c: char)
    ensures
        final(s)@ == old(s)@.push(c),
{
    s.push(c)
}

/// Relies on `String::pop`: removes the last character of the string
/// and returns it, or returns `None` when the string is empty.
#[verifier::external_body]
pub(crate) fn pop_char(s: &mut String) -> (r: Option<char>)
    ensures
        old(s)@.len() == 0 ==> r is None && *final(s) == *old(s),
        old(s)@.len() > 0 ==> r == Some(old(s)@.last()) && final(s)@ == old(s)@.drop_last(),
{
    s.pop()
}

/// A `String` holding exactly the given characters.
pub fn chars_to_string(v: &Vec<char>) -> (r: String)
    ensures
        r@ == v@,
{
    let mut r = String::new();
    let mut i: usize = 0;
    while i < v.len()
        invariant
            i <= v.len(),
            r@ == v@.take(i as int),
        decreases v.len() - i,
    {
        push_char(&mut r, v[i]);
        i = i + 1;
        proof {
            assert(r@ =~= v@.take(i as int));
        }
    }
    proof {
        assert(r@ =~= v@);
    }
    r
}

/// Splits a sequence of characters into its lines on the line-break
/// character; there is always at least one part.
pub fn split_chars(cs: &Vec<char>) -> (r: Vec<Vec<char>>)
    ensures
        r.deep_view() == split_text(cs@),
        r.len() >= 1,
{
    let ghost s = cs@;
    let mut done: Vec<Vec<char>> = Vec::new();
    let mut cur: Vec<char> = Vec::new();
    let mut i: usize = 0;
    proof {
        lemma_split_text_len(s);
        assert(s.skip(0) =~= s);
        assert(done.deep_view() =~= Seq::<Seq<char>>::empty());
        assert(split_text(s) =~= done.deep_view() + seq![cur@ + split_text(s.skip(0))[0]]
            + split_text(s.skip(0)).drop_first());
    }
    while i < cs.len()
        invariant
            i <= cs.len(),
            cs@ == s,
            split_text(s) == done.deep_view() + seq![cur@ + split_text(s.skip(i as int))[0]]
                + split_text(s.skip(i as int)).drop_first(),
        decreases cs.len() - i,
    {
        let c = cs[i];
        let ghost pre_done = done.deep_view();
        let ghost pre_cur = cur@;
        let ghost tail = s.skip(i as int);
        let ghost tail1 = s.skip(i as int + 1);
        proof {
            lemma_split_text_len(tail);
            lemma_split_text_len(tail1);
            assert(tail.len() > 0);
            assert(tail[0] == s[i as int]);
            assert(tail.drop_first() =~= tail1);
        }
        if c == '\n' {
            done.push(cur);
            cur = Vec::new();
            proof {
                assert(split_text(tail) == seq![Seq::<char>::empty()] + split_text(tail1));
                assert(split_text(tail)[0] =~= Seq::<char>::empty());
                assert(done.deep_view() =~~= pre_done.push(pre_cur));
                assert(split_text(tail).drop_first() =~= split_text(tail1));
                assert(split_text(tail1) =~= seq![split_text(tail1)[0]] + split_text(
                    tail1,
                ).drop_first());
                assert(split_text(s) =~= done.deep_view() + seq![
                    cur@ + split_text(tail1)[0],
                ] + split_text(tail1).drop_first());
            }
        } else {
            cur.push(c);
            proof {
                assert(split_text(tail) == seq![seq![tail[0]] + split_text(tail1)[0]] + split_text(
                    tail1,
                ).drop_first());
                assert(cur@ =~= pre_cur.push(c));
                assert(cur@ + split_text(tail1)[0] =~= pre_cur + split_text(tail)[0]);
                assert(split_text(tail).drop_first() =~= split_text(tail1).drop_first());
                assert(split_text(s) =~= done.deep_view() + seq![
                    cur@ + split_text(tail1)[0],
                ] + split_text(tail1).drop_first());
            }
        }
        i = i + 1;
    }
    done.push(cur);
    proof {
        let ghost tail = s.skip(i as int);
        assert(tail =~= Seq::<char>::empty());
        assert(split_text(tail) == seq![Seq::<char>::empty()]);
        assert(done.deep_view() =~~= split_text(s));
    }
    done
}

/// Splits a text into its lines on the line-break character. The result
/// always holds at least one string; the empty input gives one empty line.
pub fn lines(s: String) -> (r: Vec<String>)
    ensures
        r.deep_view() == split_text(s@),
        r.len() >= 1,
{
    let cs = str_chars(s.as_str());
    let parts = split_chars(&cs);
    let mut r: Vec<String> = Vec::new();
    let mut i: usize = 0;
    while i < parts.len()
        invariant
            i <= parts.len(),
            parts.deep_view() == split_text(s@),
            r@.len() == i as int,
            forall|k: int| 0 <= k < i as int ==> r@[k]@ == split_text(s@)[k],
        decreases parts.len() - i,
    {
        let line = chars_to_string(&parts[i]);
        proof {
            assert(line@ =~= parts@[i as int].deep_view());
            assert(parts.deep_view()[i as int] == split_text(s@)[i as int]);
        }
        r.push(line);
        i = i + 1;
    }
    proof {
        assert forall|k: int| 0 <= k < split_text(s@).len() implies r.deep_view()[k] == split_text(
            s@,
        )[k] by {
            assert(r@[k]@ == split_text(s@)[k]);
        }
        assert(r.deep_view() =~= split_text(s@));
    }
    r
}

} // verus!
