//! Character-level string operations with specifications over `Seq<char>`.
use vstd::prelude::*;
use vstd::string::*;

verus! {

/// `pat` occurs in `s` starting at index `i`.
pub open spec fn occurs_at(s: Seq<char>, pat: Seq<char>, i: int) -> bool {
    &&& 0 <= i
    &&& i + pat.len() <= s.len()
    &&& s.subrange(i, i + pat.len()) == pat
}

/// `pat` occurs somewhere in `s`.
pub open spec fn contains(s: Seq<char>, pat: Seq<char>) -> bool {
    exists|i: int| occurs_at(s, pat, i)
}

/// Every occurrence of `pat` in `s` replaced by `rep`, scanning from the left and
/// never letting two replaced occurrences overlap (the behaviour of `str::replace`).
pub open spec fn replace_all(s: Seq<char>, pat: Seq<char>, rep: Seq<char>) -> Seq<char>
    decreases s.len(),
{
    if pat.len() == 0 || s.len() < pat.len() {
        s
    } else if s.subrange(0, pat.len() as int) == pat {
        rep + replace_all(s.subrange(pat.len() as int, s.len() as int), pat, rep)
    } else {
        seq![s[0]] + replace_all(s.subrange(1, s.len() as int), pat, rep)
    }
}

/// Relies on `String::push`: appends one character at the end.
#[verifier::external_body]
pub(crate) fn push_char(s: &mut String, c: char)
    ensures
        final(s)@ == old(s)@.push(c),
{
    s.push(c)
}

/// The characters of `s`, in order.
pub fn to_chars(s: &str) -> (r: Vec<char>)
    ensures
        r@ == s@,
{
    let mut r: Vec<char> = Vec::new();
    for c in it: s.chars()
        invariant
            r@ == it.seq().subrange(0, it.index() as int),
    {
        r.push(c);
    }
    r
}

/// Whether the two strings hold the same characters.
pub fn same_text(a: &str, b: &str) -> (r: bool)
    ensures
        r == (a@ == b@),
{
    let ac = to_chars(a);
    let bc = to_chars(b);
    if ac.len() != bc.len() {
        return false;
    }
    let mut i: usize = 0;
    while i < ac.len()
        invariant
            ac@ == a@,
            bc@ == b@,
            ac.len() == bc.len(),
            i <= ac.len(),
            forall|k: int| 0 <= k < i ==> ac@[k] == bc@[k],
        decreases ac.len() - i,
    {
        if ac[i] != bc[i] {
            return false;
        }
        i += 1;
    }
    assert(ac@ =~= bc@);
    true
}

/// Whether `pat` occurs in `s` at index `i`.
fn matches_at(s: &Vec<char>, pat: &Vec<char>, i: usize) -> (r: bool)
    requires
        i <= s.len(),
    ensures
        r == occurs_at(s@, pat@, i as int),
{
    if pat.len() > s.len() - i {
        return false;
    }
    let mut j: usize = 0;
    while j < pat.len()
        invariant
            j <= pat.len(),
            i + pat.len() <= s.len(),
            forall|k: int| 0 <= k < j ==> s@[i + k] == pat@[k],
        decreases pat.len() - j,
    {
        if s[i + j] != pat[j] {
            assert(s@.subrange(i as int, i + pat.len())[j as int] != pat@[j as int]);
            return false;
        }
        j += 1;
    }
    assert(s@.subrange(i as int, i + pat.len()) =~= pat@);
    true
}

/// Whether `pat` occurs anywhere in `s`.
pub fn str_contains(s: &str, pat: &str) -> (r: bool)
    ensures
        r == contains(s@, pat@),
{
    let sc = to_chars(s);
    let pc = to_chars(pat);
    if pc.len() == 0 {
        assert(sc@.subrange(0, 0) =~= pc@);
        assert(occurs_at(sc@, pc@, 0));
        return true;
    }
    if pc.len() > sc.len() {
        return false;
    }
    let last: usize = sc.len() - pc.len();
    let mut i: usize = 0;
    while i <= last
        invariant
            sc@ == s@,
            pc@ == pat@,
            pc.len() > 0,
            last == sc.len() - pc.len(),
            i <= last + 1,
            forall|k: int| 0 <= k < i ==> !occurs_at(sc@, pc@, k),
        decreases last + 1 - i,
    {
        if matches_at(&sc, &pc, i) {
            assert(occurs_at(sc@, pc@, i as int));
            return true;
        }
        i += 1;
    }
    assert forall|k: int| !occurs_at(sc@, pc@, k) by {
        if 0 <= k && k + pc@.len() <= sc@.len() {
            assert(k < i);
        }
    }
    false
}

/// `s` with every occurrence of the non-empty `pat` replaced by `rep`.
pub fn replace_str(s: &str, pat: &str, rep: &str) -> (r: String)
    requires
        pat@.len() > 0,
    ensures
        r@ == replace_all(s@, pat@, rep@),
{
    let sc = to_chars(s);
    let pc = to_chars(pat);
    let ghost whole = sc@;
    let ghost p = pc@;
    let mut out = String::new();
    let mut i: usize = 0;
    assert(whole.subrange(0, whole.len() as int) =~= whole);
    assert(out@ + replace_all(whole, p, rep@) =~= replace_all(whole, p, rep@));
    while i < sc.len()
        invariant
            i <= sc.len(),
            sc@ == whole,
            pc@ == p,
            p.len() > 0,
            out@ + replace_all(whole.subrange(i as int, whole.len() as int), p, rep@)
                == replace_all(whole, p, rep@),
        decreases sc.len() - i,
    {
        let ghost t = whole.subrange(i as int, whole.len() as int);
        if matches_at(&sc, &pc, i) {
            assert(t.subrange(0, p.len() as int) =~= whole.subrange(i as int, i + p.len()));
            assert(t.subrange(p.len() as int, t.len() as int) =~= whole.subrange(
                i + p.len(),
                whole.len() as int,
            ));
            out.append(rep);
            i += pc.len();
        } else {
            assert(t.subrange(1, t.len() as int) =~= whole.subrange(i + 1, whole.len() as int));
            proof {
                if t.len() >= p.len() {
                    assert(t.subrange(0, p.len() as int) =~= whole.subrange(
                        i as int,
                        i + p.len(),
                    ));
                } else {
                    assert(replace_all(t.subrange(1, t.len() as int), p, rep@) == t.subrange(
                        1,
                        t.len() as int,
                    ));
                    assert(t =~= seq![t[0]] + t.subrange(1, t.len() as int));
                }
            }
            push_char(&mut out, sc[i]);
            i += 1;
        }
    }
    assert(whole.subrange(i as int, whole.len() as int) =~= Seq::<char>::empty());
    assert(out@ =~= out@ + Seq::<char>::empty());
    out
}

/// The characters with the Unicode White_Space property, those that
/// `char::is_whitespace` accepts.
pub open spec fn is_white_space(c: char) -> bool {
    let u = c as u32;
    (0x9 <= u <= 0xD) || u == 0x20 || u == 0x85 || u == 0xA0 || u == 0x1680 || (0x2000 <= u
        <= 0x200A) || u == 0x2028 || u == 0x2029 || u == 0x202F || u == 0x205F || u == 0x3000
}

/// `s` without its leading and trailing white space.
pub open spec fn trim_seq(s: Seq<char>) -> Seq<char>
    decreases s.len(),
{
    if s.len() > 0 && is_white_space(s[0]) {
        trim_seq(s.drop_first())
    } else if s.len() > 0 && is_white_space(s.last()) {
        trim_seq(s.drop_last())
    } else {
        s
    }
}

fn white_space(c: char) -> (r: bool)
    ensures
        r == is_white_space(c),
{
    let u = c as u32;
    (0x9 <= u && u <= 0xD) || u == 0x20 || u == 0x85 || u == 0xA0 || u == 0x1680 || (0x2000 <= u
        && u <= 0x200A) || u == 0x2028 || u == 0x2029 || u == 0x202F || u == 0x205F || u == 0x3000
}

/// `s` without its leading and trailing white space.
pub fn trim(s: &str) -> (r: String)
    ensures
        r@ == trim_seq(s@),
{
    let sc = to_chars(s);
    let ghost all = sc@;
    let mut i: usize = 0;
    let mut j: usize = sc.len();
    assert(all.subrange(0, all.len() as int) =~= all);
    while i < j && white_space(sc[i])
        invariant
            sc@ == all,
            i <= j == all.len(),
            trim_seq(all) == trim_seq(all.subrange(i as int, j as int)),
        decreases j - i,
    {
        assert(all.subrange(i as int, j as int).drop_first() =~= all.subrange(i + 1, j as int));
        i += 1;
    }
    while j > i && white_space(sc[j - 1])
        invariant
            sc@ == all,
            i <= j <= all.len(),
            i == j || !is_white_space(all[i as int]),
            trim_seq(all) == trim_seq(all.subrange(i as int, j as int)),
        decreases j - i,
    {
        let ghost t = all.subrange(i as int, j as int);
        assert(t.drop_last() =~= all.subrange(i as int, j - 1));
        assert(t[0] == all[i as int]);
        j -= 1;
    }
    proof {
        let t = all.subrange(i as int, j as int);
        if i < j {
            assert(t[0] == all[i as int]);
            assert(t.last() == all[j - 1]);
        }
    }
    String::from_str(s.substring_char(i, j))
}

} // verus!
