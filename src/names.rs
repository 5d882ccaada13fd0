use vstd::prelude::*;

verus! {

/// A separator that a name may not keep in its identifier-safe form.
pub const SPACE: char = ' ';

/// The identifier-safe form of a display name: every space removed,
/// every other character kept in order.
pub open spec fn without_spaces(s: Seq<char>) -> Seq<char> {
    s.filter(|c: char| c != SPACE)
}

proof fn lemma_without_spaces_push(s: Seq<char>, c: char)
    ensures
        without_spaces(s.push(c)) == if c == SPACE {
            without_spaces(s)
        } else {
            without_spaces(s).push(c)
        },
{
    reveal(Seq::filter);
    assert(s.push(c).drop_last() =~= s);
}

/// Returns `name` with every space character removed.
pub fn remove_spaces(name: &str) -> (r: String)
    ensures
        r@ == without_spaces(name@),
{
    let n = name.unicode_len();
    let mut r = String::new();
    let mut i: usize = 0;
    while i < n
        invariant
            n == name@.len(),
            i <= n,
            r@ == without_spaces(name@.subrange(0, i as int)),
        decreases n - i,
    {
        let c = name.get_char(i);
        proof {
            lemma_without_spaces_push(name@.subrange(0, i as int), c);
            assert(name@.subrange(0, i as int).push(c) =~= name@.subrange(0, i + 1));
        }
        if c != SPACE {
            r.append(name.substring_char(i, i + 1));
        }
        i = i + 1;
    }
    assert(name@.subrange(0, n as int) =~= name@);
    r
}

/// The separator between the segments of a package identifier.
pub const DOT: char = '.';

/// The segments of `s` between its dots, in order. Adjacent dots, and a dot
/// at either end, give empty segments; a string without a dot is one segment.
pub open spec fn dot_segments(s: Seq<char>) -> Seq<Seq<char>>
    decreases s.len(),
{
    if s.len() == 0 {
        seq![Seq::<char>::empty()]
    } else {
        let init = dot_segments(s.drop_last());
        if s.last() == DOT {
            init.push(Seq::<char>::empty())
        } else {
            init.update(init.len() - 1, init.last().push(s.last()))
        }
    }
}

/// The segments joined back together, with one dot between neighbours.
pub open spec fn join_dots(segs: Seq<Seq<char>>) -> Seq<char>
    decreases segs.len(),
{
    if segs.len() == 0 {
        Seq::<char>::empty()
    } else if segs.len() == 1 {
        segs[0]
    } else {
        join_dots(segs.drop_last()) + seq![DOT] + segs.last()
    }
}

/// The number of dots in `s`.
pub open spec fn dot_count(s: Seq<char>) -> nat
    decreases s.len(),
{
    if s.len() == 0 {
        0
    } else {
        dot_count(s.drop_last()) + if s.last() == DOT { 1nat } else { 0nat }
    }
}

/// There is one segment more than there are dots.
pub proof fn lemma_dot_segments_len(s: Seq<char>)
    ensures
        dot_segments(s).len() == dot_count(s) + 1,
    decreases s.len(),
{
    if s.len() > 0 {
        lemma_dot_segments_len(s.drop_last());
    }
}

/// No segment holds a dot.
pub proof fn lemma_dot_segments_dotless(s: Seq<char>)
    ensures
        forall|i: int|
            0 <= i < dot_segments(s).len() ==> !(#[trigger] dot_segments(s)[i]).contains(DOT),
    decreases s.len(),
{
    if s.len() > 0 {
        let init = dot_segments(s.drop_last());
        lemma_dot_segments_dotless(s.drop_last());
        lemma_dot_segments_len(s.drop_last());
        if s.last() != DOT {
            let last = init.last().push(s.last());
            assert forall|j: int| 0 <= j < last.len() implies last[j] != DOT by {
                if j < last.len() - 1 {
                    assert(last[j] == init.last()[j]);
                }
            }
        }
    }
}

proof fn lemma_join_extend_last(segs: Seq<Seq<char>>, c: char)
    requires
        segs.len() >= 1,
    ensures
        join_dots(segs.update(segs.len() - 1, segs.last().push(c))) == join_dots(segs).push(c),
{
    let upd = segs.update(segs.len() - 1, segs.last().push(c));
    if segs.len() > 1 {
        assert(upd.drop_last() =~= segs.drop_last());
        assert((join_dots(segs.drop_last()) + seq![DOT] + segs.last()).push(c)
            =~= join_dots(segs.drop_last()) + seq![DOT] + segs.last().push(c));
    }
}

/// Joining the segments of `s` with dots gives `s` back.
pub proof fn lemma_join_dot_segments(s: Seq<char>)
    ensures
        join_dots(dot_segments(s)) == s,
    decreases s.len(),
{
    if s.len() > 0 {
        let init = dot_segments(s.drop_last());
        lemma_join_dot_segments(s.drop_last());
        lemma_dot_segments_len(s.drop_last());
        if s.last() == DOT {
            let segs = init.push(Seq::<char>::empty());
            assert(segs.drop_last() =~= init);
            assert(s.drop_last() + seq![DOT] + Seq::<char>::empty() =~= s);
        } else {
            lemma_join_extend_last(init, s.last());
            assert(s.drop_last().push(s.last()) =~= s);
        }
    }
}

/// A view of a list of strings as the sequence of their characters.
pub open spec fn strings_view(v: Seq<String>) -> Seq<Seq<char>> {
    v.map_values(|x: String| x@)
}

pub proof fn lemma_strings_view_push(v: Seq<String>, x: String)
    ensures
        strings_view(v.push(x)) == strings_view(v).push(x@),
{
    assert(strings_view(v.push(x)) =~= strings_view(v).push(x@));
}

/// Returns the segments of `s` between its dots, as `str::split('.')` gives them.
pub fn split_dots(s: &str) -> (r: Vec<String>)
    ensures
        strings_view(r@) == dot_segments(s@),
{
    let n = s.unicode_len();
    let mut done: Vec<String> = Vec::new();
    let mut cur = String::new();
    let mut i: usize = 0;
    while i < n
        invariant
            n == s@.len(),
            i <= n,
            strings_view(done@).push(cur@) == dot_segments(s@.subrange(0, i as int)),
        decreases n - i,
    {
        let c = s.get_char(i);
        let ghost prefix = s@.subrange(0, i as int);
        let ghost before = strings_view(done@);
        let ghost old_cur = cur@;
        proof {
            assert(s@.subrange(0, i + 1).drop_last() =~= prefix);
            assert(before.push(old_cur).drop_last() =~= before);
        }
        if c == DOT {
            done.push(cur);
            cur = String::new();
            assert(strings_view(done@) =~= before.push(old_cur));
        } else {
            let piece = s.substring_char(i, i + 1);
            assert(piece@ =~= seq![c]);
            cur.append(piece);
            assert(cur@ =~= old_cur.push(c));
            assert(strings_view(done@).push(cur@) =~= before.push(old_cur).update(
                before.len() as int,
                old_cur.push(c),
            ));
        }
        i = i + 1;
    }
    assert(s@.subrange(0, n as int) =~= s@);
    let ghost before = strings_view(done@);
    let ghost last = cur@;
    done.push(cur);
    assert(strings_view(done@) =~= before.push(last));
    done
}

} // verus!
