//! Command-line argument helpers: pulling a flag or an option with its
//! value out of an argument list.

use vstd::prelude::*;

verus! {

/// Whether some argument equals the target string.
pub open spec fn has_arg(args: Seq<String>, target: Seq<char>) -> bool {
    exists|k: int| 0 <= k < args.len() && args[k]@ == target
}

/// The index of the first argument equal to the target; the list's length
/// when none is.
pub open spec fn first_arg_index(args: Seq<String>, target: Seq<char>) -> int
    decreases args.len(),
{
    if args.len() == 0 {
        0
    } else if args[0]@ == target {
        0
    } else {
        1 + first_arg_index(args.drop_first(), target)
    }
}

/// `first_arg_index` is exactly the position of the first match: no earlier
/// argument matches, and when a match exists at all, the index lands on one.
pub proof fn lemma_first_arg_index(args: Seq<String>, target: Seq<char>)
    ensures
        0 <= first_arg_index(args, target) <= args.len(),
        forall|k: int|
            0 <= k < first_arg_index(args, target) ==> args[k]@ != target,
        has_arg(args, target) <==> first_arg_index(args, target) < args.len(),
        has_arg(args, target) ==> args[first_arg_index(args, target)]@ == target,
    decreases args.len(),
{
    if args.len() == 0 {
    } else if args[0]@ == target {
    } else {
        let rest = args.drop_first();
        lemma_first_arg_index(rest, target);
        assert forall|k: int|
            0 <= k < first_arg_index(args, target) implies args[k]@ != target by {
            if k > 0 {
                assert(args[k] == rest[k - 1]);
                assert(rest[k - 1]@ != target);
            }
        }
        if has_arg(rest, target) {
            let k = choose|k: int| 0 <= k < rest.len() && rest[k]@ == target;
            assert(args[k + 1]@ == target);
        }
        if has_arg(args, target) {
            let k = choose|k: int| 0 <= k < args.len() && args[k]@ == target;
            assert(k != 0 && rest[k - 1]@ == target);
        }
    }
}

/// Removes the first argument equal to `flag`, reporting whether one was
/// there.
pub fn consume_flag(args: &mut Vec<String>, flag: &str) -> (found: bool)
    ensures
        found == has_arg(old(args)@, flag@),
        !found ==> final(args)@ == old(args)@,
        found ==> final(args)@ == old(args)@.remove(first_arg_index(old(args)@, flag@)),
{
    let target: String = flag.to_owned();
    let n = args.len();
    let mut i: usize = 0;
    while i < n
        invariant
            0 <= i <= n,
            args@ == old(args)@,
            n == args@.len(),
            target@ == flag@,
            forall|k: int| 0 <= k < i ==> args@[k]@ != flag@,
        decreases n - i,
    {
        if args[i].eq(&target) {
            proof {
                lemma_first_arg_index(args@, flag@);
                assert(args@[i as int]@ == flag@);
                assert(has_arg(args@, flag@));
                let fai = first_arg_index(args@, flag@);
                if fai < i {
                    assert(args@[fai]@ == flag@);
                } else if fai > i {
                    assert(args@[i as int]@ != flag@);
                }
                assert(fai == i);
            }
            args.remove(i);
            return true;
        }
        i += 1;
    }
    proof {
        lemma_first_arg_index(args@, flag@);
    }
    false
}

/// Removes the first argument equal to `opt` together with the value that
/// follows it, returning that value. The caller must not place the option
/// name last, with no value after it.
pub fn consume_opt(args: &mut Vec<String>, opt: &str) -> (value: Option<String>)
    requires
        has_arg(old(args)@, opt@) ==> first_arg_index(old(args)@, opt@) + 1 < old(args)@.len(),
    ensures
        value is Some <==> has_arg(old(args)@, opt@),
        !has_arg(old(args)@, opt@) ==> final(args)@ == old(args)@,
        has_arg(old(args)@, opt@) ==> {
            let i = first_arg_index(old(args)@, opt@);
            &&& value == Some(old(args)@[i + 1])
            &&& final(args)@ == old(args)@.remove(i).remove(i)
        },
{
    let target: String = opt.to_owned();
    let n = args.len();
    let mut i: usize = 0;
    while i < n
        invariant
            0 <= i <= n,
            args@ == old(args)@,
            n == args@.len(),
            target@ == opt@,
            forall|k: int| 0 <= k < i ==> args@[k]@ != opt@,
            has_arg(old(args)@, opt@) ==> first_arg_index(old(args)@, opt@) + 1 < old(args)@.len(),
        decreases n - i,
    {
        if args[i].eq(&target) {
            proof {
                lemma_first_arg_index(args@, opt@);
                assert(args@[i as int]@ == opt@);
                assert(has_arg(args@, opt@));
                let fai = first_arg_index(args@, opt@);
                if fai < i {
                    assert(args@[fai]@ == opt@);
                } else if fai > i {
                    assert(args@[i as int]@ != opt@);
                }
                assert(fai == i);
            }
            args.remove(i);
            let v = args.remove(i);
            return Some(v);
        }
        i += 1;
    }
    proof {
        lemma_first_arg_index(args@, opt@);
    }
    None
}

} // verus!
