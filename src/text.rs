//! String helpers over character sequences: path segments and joining.
use vstd::prelude::*;
use vstd::string::StrSliceExecFns;

verus! {

/// The part of `s` after its last `'/'`, or all of `s` when it holds none.
pub open spec fn last_segment_of(s: Seq<char>) -> Seq<char>
    decreases s.len(),
{
    if s.len() == 0 {
        s
    } else if s.last() == '/' {
        Seq::empty()
    } else {
        last_segment_of(s.drop_last()).push(s.last())
    }
}

/// Returns the final `/`-separated segment of `s`.
pub fn last_segment(s: &str) -> (r: String)
    ensures
        r@ == last_segment_of(s@),
{
    let n = s.unicode_len();
    let mut j: usize = n;
    assert(s@.subrange(0, n as int) =~= s@);
    assert(s@.subrange(n as int, n as int) =~= Seq::<char>::empty());
    while j > 0 && s.get_char(j - 1) != '/'
        invariant
            j <= n,
            n == s@.len(),
            last_segment_of(s@) == last_segment_of(s@.subrange(0, j as int)) + s@.subrange(
                j as int,
                n as int,
            ),
        decreases j,
    {
        proof {
            let p = s@.subrange(0, j as int);
            assert(p.drop_last() =~= s@.subrange(0, j - 1));
            assert(s@.subrange(j - 1, n as int) =~= seq![p.last()] + s@.subrange(j as int, n as int));
            assert(last_segment_of(p.drop_last()).push(p.last()) + s@.subrange(j as int, n as int)
                =~= last_segment_of(s@.subrange(0, j - 1)) + s@.subrange(j - 1, n as int));
        }
        j = j - 1;
    }
    proof {
        if j == 0 {
            assert(s@.subrange(0, 0) =~= Seq::<char>::empty());
        } else {
            assert(s@.subrange(0, j as int).last() == s@[j - 1]);
        }
    }
    let seg = s.substring_char(j, n);
    let r = String::from_str(seg);
    proof {
        assert(last_segment_of(s@.subrange(0, j as int)) =~= Seq::<char>::empty());
        assert(last_segment_of(s@) =~= s@.subrange(j as int, n as int));
    }
    r
}

} // verus!
