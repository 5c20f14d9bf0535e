use vstd::prelude::*;

verus! {

/// True when `pat` occurs in `s` starting at index `i`.
pub open spec fn occurs_at(s: Seq<char>, i: int, pat: Seq<char>) -> bool {
    0 <= i && i + pat.len() <= s.len() && s.subrange(i, i + pat.len()) == pat
}

/// True when `pat` occurs anywhere in `s`.
pub open spec fn contains(s: Seq<char>, pat: Seq<char>) -> bool {
    exists|i: int| occurs_at(s, i, pat)
}

/// The characters of `s`, one per element.
pub fn chars_of(s: &str) -> (r: Vec<char>)
    ensures
        r@ == s@,
{
    let mut r: Vec<char> = Vec::new();
    for c in it: s.chars()
        invariant
            r@ == it.seq().take(it.index()),
            it.seq() == s@,
    {
        r.push(c);
    }
    r
}

/// The first index at which `pat` occurs in `s`, given that it occurs.
pub open spec fn first_occurrence(s: Seq<char>, pat: Seq<char>) -> int {
    choose|i: int| occurs_at(s, i, pat) && forall|j: int| 0 <= j < i ==> !occurs_at(s, j, pat)
}

/// True when `s` ends with `suffix`.
pub open spec fn ends_with(s: Seq<char>, suffix: Seq<char>) -> bool {
    suffix.len() <= s.len() && s.skip(s.len() - suffix.len()) == suffix
}

/// True when no occurrence of `t` in `u + v` can begin in `u` and end in `v`:
/// the last character of `u` and the first of `v` are never consecutive in `t`.
pub open spec fn no_straddle(u: Seq<char>, v: Seq<char>, t: Seq<char>) -> bool {
    u.len() == 0 || v.len() == 0 || forall|k: int| #![trigger t[k]]
        0 < k < t.len() ==> !(u.last() == t[k - 1] && v[0] == t[k])
}

/// Where nothing straddles the seam, `t` occurs in `u + v` exactly where it
/// occurs in `u`, or in `v` shifted by the length of `u`.
pub proof fn lemma_occurs_in_concat(u: Seq<char>, v: Seq<char>, t: Seq<char>, i: int)
    requires
        t.len() > 0,
        no_straddle(u, v, t),
    ensures
        occurs_at(u + v, i, t) <==> (occurs_at(u, i, t) || occurs_at(v, i - u.len(), t)),
{
    let s = u + v;
    let n = t.len() as int;
    if occurs_at(s, i, t) {
        if i + n <= u.len() {
            assert(u.subrange(i, i + n) =~= s.subrange(i, i + n));
        } else if i >= u.len() {
            assert(v.subrange(i - u.len(), i - u.len() + n) =~= s.subrange(i, i + n));
        } else {
            let k = u.len() - i;
            assert(s.subrange(i, i + n)[k - 1] == t[k - 1]);
            assert(s.subrange(i, i + n)[k] == t[k]);
            assert(s[u.len() - 1] == u.last());
            assert(s[u.len() as int] == v[0]);
        }
    }
    if occurs_at(u, i, t) {
        assert(u.subrange(i, i + n) =~= s.subrange(i, i + n));
    }
    if occurs_at(v, i - u.len(), t) {
        assert(v.subrange(i - u.len(), i - u.len() + n) =~= s.subrange(i, i + n));
    }
}

/// Tells whether `pat` occurs in `s` at index `i`.
pub fn matches_at(s: &Vec<char>, i: usize, pat: &Vec<char>) -> (r: bool)
    ensures
        r == occurs_at(s@, i as int, pat@),
{
    if i > s.len() || pat.len() > s.len() - i {
        return false;
    }
    let mut k: usize = 0;
    while k < pat.len()
        invariant
            i + pat@.len() <= s@.len(),
            i <= s@.len(),
            s@.len() <= usize::MAX,
            k <= pat@.len(),
            forall|j: int| 0 <= j < k ==> s@[i + j] == pat@[j],
        decreases pat@.len() - k,
    {
        if s[i + k] != pat[k] {
            proof {
                assert(s@.subrange(i as int, i + pat@.len())[k as int] != pat@[k as int]);
            }
            return false;
        }
        k += 1;
    }
    proof {
        assert(s@.subrange(i as int, i + pat@.len()) =~= pat@);
    }
    true
}

/// Finds the first index at which `pat` occurs in `s`.
pub fn find_first(s: &Vec<char>, pat: &Vec<char>) -> (r: Option<usize>)
    ensures
        match r {
            Some(i) => occurs_at(s@, i as int, pat@) && i as int == first_occurrence(s@, pat@),
            None => !contains(s@, pat@),
        },
{
    if pat.len() > s.len() {
        return None;
    }
    let last: usize = s.len() - pat.len();
    let mut i: usize = 0;
    loop
        invariant
            i <= last,
            last + pat@.len() == s@.len(),
            forall|j: int| 0 <= j < i ==> !occurs_at(s@, j, pat@),
        decreases last - i,
    {
        if matches_at(s, i, pat) {
            proof {
                let f = first_occurrence(s@, pat@);
                assert(occurs_at(s@, i as int, pat@) && forall|j: int|
                    0 <= j < i ==> !occurs_at(s@, j, pat@));
                assert(occurs_at(s@, f, pat@) && forall|j: int|
                    0 <= j < f ==> !occurs_at(s@, j, pat@));
                if f < i {
                } else if f > i {
                    assert(!occurs_at(s@, i as int, pat@));
                }
            }
            return Some(i);
        }
        if i == last {
            proof {
                assert forall|j: int| !occurs_at(s@, j, pat@) by {
                    if 0 <= j < i {
                    }
                }
            }
            return None;
        }
        i += 1;
    }
}

/// Tells whether `pat` occurs anywhere in `s`.
pub fn str_contains(s: &str, pat: &str) -> (r: bool)
    ensures
        r == contains(s@, pat@),
{
    let sc = chars_of(s);
    let pc = chars_of(pat);
    find_first(&sc, &pc).is_some()
}

/// Tells whether `s` ends with `suffix`.
pub fn str_ends_with(s: &str, suffix: &str) -> (r: bool)
    ensures
        r == ends_with(s@, suffix@),
{
    let sc = chars_of(s);
    let pc = chars_of(suffix);
    if pc.len() > sc.len() {
        return false;
    }
    let r = matches_at(&sc, sc.len() - pc.len(), &pc);
    proof {
        let start = sc@.len() - pc@.len();
        assert(sc@.skip(start) =~= sc@.subrange(start, start + pc@.len()));
    }
    r
}

} // verus!
