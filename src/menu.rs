use vstd::prelude::*;
use crate::engine::string_views;
use crate::registry::ScriptRegistry;

verus! {

/// `a` comes no later than `b` in lexicographic order of characters.
pub open spec fn lex_le(a: Seq<char>, b: Seq<char>) -> bool
    decreases a.len(),
{
    if a.len() == 0 {
        true
    } else if b.len() == 0 {
        false
    } else if a[0] != b[0] {
        a[0] < b[0]
    } else {
        lex_le(a.drop_first(), b.drop_first())
    }
}

/// Each name comes no later than the next.
pub open spec fn names_sorted(s: Seq<Seq<char>>) -> bool {
    forall|i: int| 0 <= i < s.len() - 1 ==> lex_le(#[trigger] s[i], s[i + 1])
}

proof fn lemma_lex_total(a: Seq<char>, b: Seq<char>)
    ensures
        lex_le(a, b) || lex_le(b, a),
    decreases a.len(),
{
    if a.len() > 0 && b.len() > 0 {
        if a[0] == b[0] {
            lemma_lex_total(a.drop_first(), b.drop_first());
        }
    }
}

fn str_le(a: &str, b: &str) -> (r: bool)
    ensures
        r == lex_le(a@, b@),
{
    let n = a.unicode_len();
    let m = b.unicode_len();
    let mut i: usize = 0;
    assert(a@.skip(0) =~= a@ && b@.skip(0) =~= b@);
    while i < n && i < m
        invariant
            n == a@.len(),
            m == b@.len(),
            0 <= i <= n,
            i <= m,
            lex_le(a@, b@) == lex_le(a@.skip(i as int), b@.skip(i as int)),
        decreases n - i,
    {
        let ca = a.get_char(i);
        let cb = b.get_char(i);
        assert(a@.skip(i as int)[0] == ca && b@.skip(i as int)[0] == cb);
        if ca != cb {
            return ca < cb;
        }
        assert(a@.skip(i as int).drop_first() =~= a@.skip(i + 1));
        assert(b@.skip(i as int).drop_first() =~= b@.skip(i + 1));
        i = i + 1;
    }
    assert(i == n ==> a@.skip(i as int).len() == 0);
    assert(i < n ==> b@.skip(i as int).len() == 0 && a@.skip(i as int).len() > 0);
    i == n
}

proof fn lemma_insert_sorted(s0: Seq<Seq<char>>, p: int, xv: Seq<char>)
    requires
        names_sorted(s0),
        0 <= p <= s0.len(),
        p > 0 ==> lex_le(s0[p - 1], xv),
        p < s0.len() ==> lex_le(xv, s0[p]),
    ensures
        names_sorted(s0.insert(p, xv)),
        s0.insert(p, xv).to_set() == s0.to_set().insert(xv),
{
    let s1 = s0.insert(p, xv);
    lemma_insert_to_set(s0, p, xv);
    assert forall|i: int| 0 <= i < s1.len() - 1 implies lex_le(#[trigger] s1[i], s1[i + 1]) by {
        if i < p - 1 {
            assert(s1[i] == s0[i] && s1[i + 1] == s0[i + 1]);
        } else if i == p - 1 {
        } else if i == p {
            assert(s1[i + 1] == s0[i]);
        } else {
            assert(s1[i] == s0[i - 1] && s1[i + 1] == s0[i]);
        }
    }
}

proof fn lemma_insert_to_set(s0: Seq<Seq<char>>, p: int, xv: Seq<char>)
    requires
        0 <= p <= s0.len(),
    ensures
        s0.insert(p, xv).to_set() == s0.to_set().insert(xv),
{
    let s1 = s0.insert(p, xv);
    assert forall|y: Seq<char>| #[trigger] s1.to_set().contains(y) == s0.to_set().insert(xv).contains(y) by {
        if s0.to_set().contains(y) {
            let j = choose|j: int| 0 <= j < s0.len() && s0[j] == y;
            if j < p {
                assert(s1[j] == y);
            } else {
                assert(s1[j + 1] == y);
            }
        }
        if y == xv {
            assert(s1[p] == y);
        }
        if s1.to_set().contains(y) && y != xv {
            let j = choose|j: int| 0 <= j < s1.len() && s1[j] == y;
            if j < p {
                assert(s0[j] == y);
            } else {
                assert(s0[j - 1] == y);
            }
        }
    }
    assert(s1.to_set() =~= s0.to_set().insert(xv));
}

fn insert_sorted(v: &mut Vec<String>, x: String)
    requires
        names_sorted(string_views(old(v)@)),
    ensures
        names_sorted(string_views(final(v)@)),
        string_views(final(v)@).to_set() == string_views(old(v)@).to_set().insert(x@),
        final(v)@.len() == old(v)@.len() + 1,
{
    let ghost s0 = string_views(v@);
    let mut p: usize = 0;
    while p < v.len() && !str_le(x.as_str(), v[p].as_str())
        invariant
            0 <= p <= v@.len(),
            v@ == old(v)@,
            s0 == string_views(v@),
            p > 0 ==> lex_le(s0[p - 1], x@),
        decreases v@.len() - p,
    {
        proof {
            lemma_lex_total(x@, s0[p as int]);
        }
        p = p + 1;
    }
    let ghost xv = x@;
    v.insert(p, x);
    proof {
        lemma_insert_sorted(s0, p as int, xv);
    }
    assert(string_views(v@) =~= s0.insert(p as int, xv));
}

/// The registered names in lexicographic order, as the menu lists them.
pub fn sorted_names(scripts: &ScriptRegistry) -> (r: Vec<String>)
    requires
        scripts.wf(),
    ensures
        names_sorted(string_views(r@)),
        string_views(r@).to_set() == scripts@.dom(),
        r@.len() == scripts@.len(),
{
    let names = scripts.names();
    let mut r: Vec<String> = Vec::new();
    let mut i: usize = 0;
    assert(string_views(names@).subrange(0, 0).to_set() =~= string_views(r@).to_set());
    while i < names.len()
        invariant
            0 <= i <= names@.len(),
            names_sorted(string_views(r@)),
            string_views(r@).to_set() == string_views(names@).subrange(0, i as int).to_set(),
            r@.len() == i,
        decreases names@.len() - i,
    {
        insert_sorted(&mut r, names[i].clone());
        assert(string_views(names@).subrange(0, i + 1) =~= string_views(names@).subrange(0, i as int).push(
            names@[i as int]@,
        ));
        proof {
            string_views(names@).subrange(0, i as int).lemma_push_to_set_commute(names@[i as int]@);
        }
        i = i + 1;
    }
    assert(string_views(names@).subrange(0, i as int) =~= string_views(names@));
    r
}

/// Why a menu choice was refused.
#[derive(Debug, PartialEq, Eq)]
pub enum MenuError {
    /// The number is not that of a listed script.
    InvalidSelection,
}

/// The script chosen by its 1-based position in `names`.
pub fn select_script(names: &Vec<String>, choice: usize) -> (r: Result<String, MenuError>)
    ensures
        1 <= choice <= names@.len() ==> (r matches Ok(s) && s == names@[choice - 1]),
        !(1 <= choice <= names@.len()) ==> r == Err::<String, MenuError>(MenuError::InvalidSelection),
{
    if choice == 0 || choice > names.len() {
        Err(MenuError::InvalidSelection)
    } else {
        Ok(names[choice - 1].clone())
    }
}

} // verus!
