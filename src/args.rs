use vstd::prelude::*;

verus! {

/// `s` holds `==` at position `p`.
pub open spec fn separator_at(s: Seq<char>, p: int) -> bool {
    0 <= p && p + 1 < s.len() && s[p] == '=' && s[p + 1] == '='
}

/// The `key==value` reading of an argument: split at the first `==`.
pub open spec fn parse_arg_spec(s: Seq<char>) -> Option<(Seq<char>, Seq<char>)> {
    if exists|p: int| separator_at(s, p) {
        let p = choose|p: int| separator_at(s, p) && forall|q: int| 0 <= q < p ==> !separator_at(s, q);
        Some((s.subrange(0, p), s.subrange(p + 2, s.len() as int)))
    } else {
        None
    }
}

/// Splits an argument of the form `key==value` at its first `==`.
pub fn parse_arg(arg: &str) -> (r: Option<(String, String)>)
    ensures
        match r {
            Some((k, v)) => parse_arg_spec(arg@) == Some((k@, v@)),
            None => parse_arg_spec(arg@) is None,
        },
{
    let n = arg.unicode_len();
    let mut i: usize = 0;
    while i < n
        invariant
            n == arg@.len(),
            0 <= i <= n,
            forall|q: int| 0 <= q < i ==> !separator_at(arg@, q),
        decreases n - i,
    {
        if i + 1 < n && arg.get_char(i) == '=' && arg.get_char(i + 1) == '=' {
            assert(separator_at(arg@, i as int));
            let ghost p = choose|p: int|
                separator_at(arg@, p) && forall|q: int| 0 <= q < p ==> !separator_at(arg@, q);
            assert(p == i as int) by {
                if p < i {
                } else if p > i {
                }
            }
            let key = arg.substring_char(0, i).to_owned();
            let value = arg.substring_char(i + 2, n).to_owned();
            return Some((key, value));
        }
        i = i + 1;
    }
    assert(!exists|p: int| separator_at(arg@, p)) by {
        if exists|p: int| separator_at(arg@, p) {
            let p = choose|p: int| separator_at(arg@, p);
            assert(p < i);
        }
    }
    None
}

} // verus!
