//! Splitting text on single spaces and joining it back.

use vstd::prelude::*;
use vstd::string::*;

verus! {

/// The pieces of `s` between single spaces, in order. Adjacent spaces give
/// empty pieces, and the result always has at least one piece.
pub open spec fn split_spaces(s: Seq<char>) -> Seq<Seq<char>>
    decreases s.len(),
{
    if s.len() == 0 {
        seq![Seq::<char>::empty()]
    } else {
        let prev = split_spaces(s.drop_last());
        if s.last() == ' ' {
            prev.push(Seq::<char>::empty())
        } else {
            prev.update(prev.len() - 1, prev.last().push(s.last()))
        }
    }
}

/// The pieces of `parts` with one space between each two of them.
pub open spec fn join_spaces(parts: Seq<Seq<char>>) -> Seq<char>
    decreases parts.len(),
{
    if parts.len() == 0 {
        Seq::<char>::empty()
    } else if parts.len() == 1 {
        parts[0]
    } else {
        join_spaces(parts.drop_last()) + seq![' '] + parts.last()
    }
}

/// The texts held by a vector of strings.
pub open spec fn texts(v: Seq<String>) -> Seq<Seq<char>> {
    v.map_values(|t: String| t@)
}

proof fn lemma_split_nonempty(s: Seq<char>)
    ensures
        split_spaces(s).len() >= 1,
    decreases s.len(),
{
    if s.len() > 0 {
        lemma_split_nonempty(s.drop_last());
    }
}

/// Splits `v` at every single space.
pub fn split_tokens(v: &str) -> (r: Vec<String>)
    ensures
        texts(r@) == split_spaces(v@),
{
    let n = v.unicode_len();
    let mut toks: Vec<String> = Vec::new();
    let mut start: usize = 0;
    let mut i: usize = 0;
    proof {
        assert(v@.subrange(0, 0) =~= Seq::<char>::empty());
        assert(texts(toks@).push(v@.subrange(0, 0)) =~= split_spaces(v@.subrange(0, 0)));
    }
    while i < n
        invariant
            n == v@.len(),
            start <= i <= n,
            texts(toks@).push(v@.subrange(start as int, i as int)) == split_spaces(
                v@.subrange(0, i as int),
            ),
        decreases n - i,
    {
        let c = v.get_char(i);
        let ghost prefix = v@.subrange(0, i as int + 1);
        let ghost prev = split_spaces(v@.subrange(0, i as int));
        proof {
            assert(prefix.drop_last() =~= v@.subrange(0, i as int));
            assert(prefix.last() == c);
            lemma_split_nonempty(v@.subrange(0, i as int));
        }
        if c == ' ' {
            let piece = String::from_str(v.substring_char(start, i));
            toks.push(piece);
            start = i + 1;
            proof {
                assert(texts(toks@) =~= prev);
                assert(v@.subrange(start as int, i as int + 1) =~= Seq::<char>::empty());
                assert(split_spaces(prefix) == prev.push(Seq::<char>::empty()));
                assert(texts(toks@).push(v@.subrange(start as int, i as int + 1)) =~= split_spaces(
                    prefix,
                ));
            }
        } else {
            proof {
                assert(v@.subrange(start as int, i as int + 1) =~= v@.subrange(
                    start as int,
                    i as int,
                ).push(c));
                assert(texts(toks@).push(v@.subrange(start as int, i as int + 1)) =~= split_spaces(
                    prefix,
                ));
            }
        }
        i = i + 1;
    }
    let last = String::from_str(v.substring_char(start, n));
    let ghost before = toks@;
    toks.push(last);
    proof {
        assert(v@.subrange(0, n as int) =~= v@);
        assert(texts(toks@) =~= texts(before).push(v@.subrange(start as int, n as int)));
    }
    toks
}

/// Joins `parts` with one space between each two of them.
pub fn join_tokens(parts: &Vec<String>) -> (r: String)
    ensures
        r@ == join_spaces(texts(parts@)),
{
    let mut r = String::new();
    let mut i: usize = 0;
    proof {
        assert(texts(parts@).take(0) =~= Seq::<Seq<char>>::empty());
    }
    while i < parts.len()
        invariant
            i <= parts.len(),
            r@ == join_spaces(texts(parts@).take(i as int)),
        decreases parts.len() - i,
    {
        let ghost pv = texts(parts@);
        proof {
            assert(pv.take(i as int + 1).drop_last() =~= pv.take(i as int));
            assert(pv.take(i as int + 1).last() == parts@[i as int]@);
        }
        if i > 0 {
            r.append(" ");
            proof {
                reveal_strlit(" ");
            }
        }
        r.append(parts[i].as_str());
        proof {
            if i == 0 {
                assert(r@ =~= pv.take(1)[0]);
            } else {
                assert(r@ =~= join_spaces(pv.take(i as int)) + seq![' '] + parts@[i as int]@);
            }
        }
        i = i + 1;
    }
    proof {
        assert(texts(parts@).take(parts.len() as int) =~= texts(parts@));
    }
    r
}

/// Whether `a` holds exactly the characters of `b`.
pub fn same_text(a: &str, b: &str) -> (r: bool)
    ensures
        r == (a@ == b@),
{
    let n = a.unicode_len();
    let m = b.unicode_len();
    if n != m {
        return false;
    }
    let mut i: usize = 0;
    while i < n
        invariant
            n == a@.len(),
            n == b@.len(),
            i <= n,
            forall|j: int| 0 <= j < i ==> a@[j] == b@[j],
        decreases n - i,
    {
        if a.get_char(i) != b.get_char(i) {
            return false;
        }
        i = i + 1;
    }
    proof {
        assert(a@ =~= b@);
    }
    true
}

} // verus!
