//! Choosing from sequences.

use vstd::prelude::*;

verus! {

/// The first value that is there.
pub open spec fn first_some<T>(s: Seq<Option<T>>) -> Option<T>
    decreases s.len(),
{
    if s.len() == 0 {
        None
    } else if s[0] is Some {
        s[0]
    } else {
        first_some(s.drop_first())
    }
}

/// The last value that is there.
pub open spec fn last_some<T>(s: Seq<Option<T>>) -> Option<T>
    decreases s.len(),
{
    if s.len() == 0 {
        None
    } else if s.last() is Some {
        s.last()
    } else {
        last_some(s.drop_last())
    }
}

/// The values that are there, in order.
pub open spec fn somes<T>(s: Seq<Option<T>>) -> Seq<T>
    decreases s.len(),
{
    if s.len() == 0 {
        Seq::empty()
    } else {
        match s.last() {
            Some(x) => somes(s.drop_last()).push(x),
            None => somes(s.drop_last()),
        }
    }
}

/// Looking at the first value of a tail: it is the answer, or the next tail has it.
pub proof fn first_some_step<T>(s: Seq<Option<T>>, i: int)
    requires
        0 <= i < s.len(),
    ensures
        first_some(s.skip(i)) == (if s[i] is Some {
            s[i]
        } else {
            first_some(s.skip(i + 1))
        }),
{
    assert(s.skip(i).drop_first() =~= s.skip(i + 1));
}

/// One value more at the end: it is the last one, if it is there.
pub proof fn last_some_step<T>(s: Seq<Option<T>>, i: int)
    requires
        0 <= i < s.len(),
    ensures
        last_some(s.take(i + 1)) == (if s[i] is Some {
            s[i]
        } else {
            last_some(s.take(i))
        }),
{
    assert(s.take(i + 1).drop_last() =~= s.take(i));
    assert(s.take(i + 1).last() == s[i]);
}

/// One value more at the end is one value more in the result, if it is there.
pub proof fn somes_step<T>(s: Seq<Option<T>>, i: int)
    requires
        0 <= i < s.len(),
    ensures
        somes(s.take(i + 1)) == (match s[i] {
            Some(x) => somes(s.take(i)).push(x),
            None => somes(s.take(i)),
        }),
{
    assert(s.take(i + 1).drop_last() =~= s.take(i));
    assert(s.take(i + 1).last() == s[i]);
}

/// Before the first value nothing is there, and behind the last nothing is left.
pub proof fn ends_of<T>(s: Seq<T>)
    ensures
        s.take(0) == Seq::<T>::empty(),
        s.skip(0) == s,
        s.take(s.len() as int) == s,
        s.skip(s.len() as int) == Seq::<T>::empty(),
{
    assert(s.take(0) =~= Seq::<T>::empty());
    assert(s.skip(0) =~= s);
    assert(s.take(s.len() as int) =~= s);
    assert(s.skip(s.len() as int) =~= Seq::<T>::empty());
}

/// The first value that is there is one behind which nothing comes earlier; there is none exactly
/// where nothing is there at all.
pub proof fn first_is_first<T>(s: Seq<Option<T>>)
    ensures
        first_some(s) matches Some(x) ==> exists|i: int|
            0 <= i < s.len() && #[trigger] s[i] == Some(x) && forall|j: int|
                0 <= j < i ==> (#[trigger] s[j]) is None,
        first_some(s) is None <==> forall|i: int| 0 <= i < s.len() ==> (#[trigger] s[i]) is None,
    decreases s.len(),
{
    if s.len() > 0 {
        let rest = s.drop_first();
        first_is_first(rest);
        if s[0] is None {
            if let Some(x) = first_some(rest) {
                let i = choose|i: int|
                    0 <= i < rest.len() && #[trigger] rest[i] == Some(x) && forall|j: int|
                        0 <= j < i ==> (#[trigger] rest[j]) is None;
                assert(s[i + 1] == Some(x));
                assert forall|j: int| 0 <= j < i + 1 implies (#[trigger] s[j]) is None by {
                    if j > 0 {
                        assert(rest[j - 1] is None);
                    }
                }
            } else {
                assert forall|i: int| 0 <= i < s.len() implies (#[trigger] s[i]) is None by {
                    if i > 0 {
                        assert(rest[i - 1] is None);
                    }
                }
            }
            if forall|i: int| 0 <= i < s.len() ==> (#[trigger] s[i]) is None {
                assert forall|i: int| 0 <= i < rest.len() implies (#[trigger] rest[i]) is None by {
                    assert(s[i + 1] is None);
                }
            }
        } else {
            assert(s[0] == first_some(s));
        }
    }
}

/// A value with nothing before it is the first.
pub proof fn this_is_first<T>(s: Seq<Option<T>>, i: int)
    requires
        0 <= i < s.len(),
        s[i] is Some,
        forall|j: int| 0 <= j < i ==> (#[trigger] s[j]) is None,
    ensures
        first_some(s) == s[i],
    decreases s.len(),
{
    if i > 0 {
        assert(s[0] is None);
        let rest = s.drop_first();
        assert forall|j: int| 0 <= j < i - 1 implies (#[trigger] rest[j]) is None by {
            assert(s[j + 1] is None);
        }
        this_is_first(rest, i - 1);
    }
}

/// A value with nothing behind it is the last.
pub proof fn this_is_last<T>(s: Seq<Option<T>>, i: int)
    requires
        0 <= i < s.len(),
        s[i] is Some,
        forall|j: int| i < j < s.len() ==> (#[trigger] s[j]) is None,
    ensures
        last_some(s) == s[i],
    decreases s.len(),
{
    if i < s.len() - 1 {
        assert(s[s.len() - 1] is None);
        this_is_last(s.drop_last(), i);
    }
}

/// Nothing is last exactly where nothing is there.
pub proof fn nothing_is_last<T>(s: Seq<Option<T>>)
    ensures
        last_some(s) is None <==> forall|i: int| 0 <= i < s.len() ==> (#[trigger] s[i]) is None,
    decreases s.len(),
{
    if s.len() > 0 {
        let front = s.drop_last();
        nothing_is_last(front);
        if s.last() is None {
            if last_some(front) is None {
                assert forall|i: int| 0 <= i < s.len() implies (#[trigger] s[i]) is None by {
                    if i < s.len() - 1 {
                        assert(front[i] is None);
                    }
                }
            }
            if forall|i: int| 0 <= i < s.len() ==> (#[trigger] s[i]) is None {
                assert forall|i: int| 0 <= i < front.len() implies (#[trigger] front[i]) is None by {
                    assert(s[i] is None);
                }
            }
        } else {
            assert(s[s.len() - 1] is Some);
        }
    }
}

/// The values that are there come one by one and in order.
pub proof fn somes_come_in_order<T>(s: Seq<Option<T>>, x: T)
    ensures
        somes(s.push(Some(x))) == somes(s).push(x),
        somes(s.push(None)) == somes(s),
        somes(Seq::<Option<T>>::empty()) == Seq::<T>::empty(),
{
    assert(s.push(Some(x)).drop_last() =~= s);
    assert(s.push(None).drop_last() =~= s);
}

/// The values that are there in two sequences are those in the one and then those in the other.
pub proof fn somes_of_two<T>(a: Seq<Option<T>>, b: Seq<Option<T>>)
    ensures
        somes(a + b) == somes(a) + somes(b),
    decreases b.len(),
{
    if b.len() == 0 {
        assert(a + b =~= a);
        assert(somes(a) + somes(b) =~= somes(a));
    } else {
        somes_of_two(a, b.drop_last());
        assert((a + b).drop_last() =~= a + b.drop_last());
        assert((a + b).last() == b.last());
        assert(somes(a + b) =~= somes(a) + somes(b));
    }
}

} // verus!
