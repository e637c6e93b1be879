use vstd::prelude::*;

verus! {

/// The string that joins `parts` with `sep` between neighbours: empty for no
/// parts, and without a leading or trailing separator.
pub open spec fn spec_join(parts: Seq<Seq<char>>, sep: Seq<char>) -> Seq<char>
    decreases parts.len(),
{
    if parts.len() == 0 {
        Seq::empty()
    } else if parts.len() == 1 {
        parts[0]
    } else {
        spec_join(parts.drop_last(), sep) + sep + parts.last()
    }
}

/// Join the given strings with `sep` between neighbours, as `spec_join` says.
pub fn join_strings(parts: &Vec<String>, sep: &str) -> (r: String)
    ensures
        r@ == spec_join(parts@.map_values(|s: String| s@), sep@),
{
    let ghost views = parts@.map_values(|s: String| s@);
    let mut out = String::new();
    let mut i: usize = 0;
    while i < parts.len()
        invariant
            i <= parts.len(),
            views == parts@.map_values(|s: String| s@),
            out@ == spec_join(views.take(i as int), sep@),
        decreases parts.len() - i,
    {
        if i > 0 {
            out.append(sep);
        }
        out.append(parts[i].as_str());
        i = i + 1;
        proof {
            assert(views.take(i as int).drop_last() =~= views.take(i - 1));
            assert(views.take(i as int).last() == views[i - 1]);
            if i > 1 {
                assert(out@ =~= spec_join(views.take(i - 1), sep@) + sep@ + views[i - 1]);
            } else {
                assert(out@ =~= views[0]);
            }
        }
    }
    proof {
        assert(views.take(parts@.len() as int) =~= views);
    }
    out
}

/// Clone an optional string, preserving its presence and characters.
pub fn clone_opt_string(src: &Option<String>) -> (r: Option<String>)
    ensures
        r is Some <==> src is Some,
        r matches Some(s) ==> src matches Some(t) && s@ == t@,
{
    match src {
        Some(s) => Some(s.clone()),
        None => None,
    }
}

/// Character-for-character string equality.
pub fn str_eq(a: &str, b: &str) -> (r: bool)
    ensures
        r == (a@ == b@),
{
    let n = a.unicode_len();
    if n != b.unicode_len() {
        proof {
            assert(a@.len() != b@.len());
        }
        return false;
    }
    let mut i: usize = 0;
    while i < n
        invariant
            i <= n == a@.len() == b@.len(),
            forall|j: int| 0 <= j < i ==> a@[j] == b@[j],
        decreases n - i,
    {
        if a.get_char(i) != b.get_char(i) {
            return false;
        }
        i = i + 1;
    }
    proof {
        assert(a@ =~= b@);
    }
    true
}

/// True exactly when the string holds an embedded null character, which the
/// engine's path arguments cannot carry.
pub fn contains_nul(s: &str) -> (r: bool)
    ensures
        r == s@.contains('\0'),
{
    let n = s.unicode_len();
    let mut i: usize = 0;
    while i < n
        invariant
            i <= n == s@.len(),
            forall|j: int| 0 <= j < i ==> s@[j] != '\0',
        decreases n - i,
    {
        if s.get_char(i) == '\0' {
            proof {
                assert(s@.contains('\0'));
            }
            return true;
        }
        i = i + 1;
    }
    proof {
        assert(!s@.contains('\0'));
    }
    false
}

/// True exactly for the one-character name `.`.
pub fn is_dot(s: &String) -> (r: bool)
    ensures
        r == (s@ == seq!['.']),
{
    let n = s.as_str().unicode_len();
    if n == 1 {
        let c = s.as_str().get_char(0);
        proof {
            assert(s@ =~= seq!['.'] <==> s@.len() == 1 && s@[0] == '.');
        }
        c == '.'
    } else {
        proof {
            assert(s@ != seq!['.']) by {
                assert(seq!['.'].len() == 1);
            }
        }
        false
    }
}

/// True exactly for the two-character name `..`.
pub fn is_dot_dot(s: &String) -> (r: bool)
    ensures
        r == (s@ == seq!['.', '.']),
{
    let n = s.as_str().unicode_len();
    if n == 2 {
        let c0 = s.as_str().get_char(0);
        let c1 = s.as_str().get_char(1);
        proof {
            assert(s@ =~= seq!['.', '.'] <==> s@.len() == 2 && s@[0] == '.' && s@[1] == '.');
        }
        c0 == '.' && c1 == '.'
    } else {
        proof {
            assert(s@ != seq!['.', '.']) by {
                assert(seq!['.', '.'].len() == 2);
            }
        }
        false
    }
}

} // verus!
