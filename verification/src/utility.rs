//! Version-string normalization and game-folder resolution.

use vstd::prelude::*;

use crate::download::is_dec_digit;
use crate::text::push_char;

verus! {

/// The decimal digits of `s`, in order, everything else removed.
pub open spec fn digits_of(s: Seq<char>) -> Seq<char>
    decreases s.len(),
{
    if s.len() == 0 {
        Seq::empty()
    } else {
        digits_of(s.drop_last()) + (if is_dec_digit(s.last()) {
            seq![s.last()]
        } else {
            Seq::empty()
        })
    }
}

/// Strips every non-digit from `string`, keeping the digits in order.
/// Used to unify addon version labels before comparing them.
pub fn strip_non_digits(string: &str) -> (r: Option<String>)
    ensures
        r matches Some(d) && d@ == digits_of(string@),
{
    let n = string.unicode_len();
    let mut out = String::new();
    let mut i: usize = 0;
    while i < n
        invariant
            0 <= i <= n,
            n == string@.len(),
            out@ == digits_of(string@.subrange(0, i as int)),
        decreases n - i,
    {
        let c = string.get_char(i);
        if c >= '0' && c <= '9' {
            push_char(&mut out, c);
        }
        proof {
            let s1 = string@.subrange(0, i as int + 1);
            assert(s1.drop_last() =~= string@.subrange(0, i as int));
            assert(out@ =~= digits_of(s1));
        }
        i = i + 1;
    }
    proof {
        assert(string@.subrange(0, n as int) =~= string@);
    }
    Option::Some(out)
}

/// Whether the word `w` stands in `s` at position `i` as a whole path
/// segment: the characters match and a separator or an end of the path
/// bounds the word on both sides.
pub open spec fn is_segment_at(s: Seq<char>, i: int, w: Seq<char>) -> bool {
    &&& 0 <= i
    &&& i + w.len() <= s.len()
    &&& s.subrange(i, i + w.len()) == w
    &&& (i == 0 || s[i - 1] == '/')
    &&& (i + w.len() == s.len() || s[i + w.len()] == '/')
}

/// Whether one of the game's known top-level folders stands in `s` at
/// position `i` as a whole segment.
pub open spec fn known_segment_at(s: Seq<char>, i: int) -> bool {
    ||| is_segment_at(s, i, "_retail_"@)
    ||| is_segment_at(s, i, "_classic_"@)
    ||| is_segment_at(s, i, "_ptr_"@)
}

/// The path left of the separator preceding position `i`.
pub open spec fn parent_prefix(s: Seq<char>, i: int) -> Seq<char> {
    if i == 0 {
        Seq::empty()
    } else {
        s.subrange(0, i - 1)
    }
}

/// Whether `q` is the root that `p` resolves to: everything left of the
/// deepest whole segment naming a known folder.
pub open spec fn resolves_to(p: Seq<char>, q: Seq<char>) -> bool {
    exists|i: int|
        (#[trigger] known_segment_at(p, i)) && q == parent_prefix(p, i) && (forall|j: int|
            i < j < p.len() ==> !known_segment_at(p, j))
}

fn segment_at(s: &str, i: usize, w: &str) -> (r: bool)
    requires
        i <= s@.len(),
    ensures
        r == is_segment_at(s@, i as int, w@),
{
    let n = s.unicode_len();
    let m = w.unicode_len();
    if m > n - i {
        return false;
    }
    if i > 0 && s.get_char(i - 1) != '/' {
        return false;
    }
    if i + m < n && s.get_char(i + m) != '/' {
        return false;
    }
    let mut k: usize = 0;
    while k < m
        invariant
            0 <= k <= m,
            i + m <= n,
            n == s@.len(),
            m == w@.len(),
            forall|j: int| 0 <= j < k ==> s@[i + j] == w@[j],
        decreases m - k,
    {
        if s.get_char(i + k) != w.get_char(k) {
            proof {
                assert(s@.subrange(i as int, i as int + m as int)[k as int] == s@[i + k]);
            }
            return false;
        }
        k = k + 1;
    }
    proof {
        assert(s@.subrange(i as int, i as int + m as int) =~= w@);
    }
    true
}

/// Picks the game's root folder from a chosen path, given as a
/// `/`-separated string. A path under which the application has already
/// seen one of the known folders (`has_known_subfolder`) is the root
/// itself; otherwise the deepest whole segment naming a known folder
/// marks the root as everything left of it, and a path with no such
/// segment resolves to nothing.
pub fn wow_path_resolution(path: Option<&str>, has_known_subfolder: bool) -> (r: Option<String>)
    ensures
        match path {
            Option::None => r is None,
            Option::Some(p) => if has_known_subfolder {
                r matches Some(q) && q@ == p@
            } else {
                match r {
                    Option::Some(q) => resolves_to(p@, q@),
                    Option::None => forall|i: int|
                        0 <= i < p@.len() ==> !(#[trigger] known_segment_at(p@, i)),
                }
            },
        },
{
    let p = match path {
        Option::Some(p) => p,
        Option::None => { return Option::None; },
    };
    if has_known_subfolder {
        return Option::Some(String::from_str(p));
    }
    let n = p.unicode_len();
    let mut i = n;
    while i > 0
        invariant
            path == Option::Some(p),
            !has_known_subfolder,
            0 <= i <= n,
            n == p@.len(),
            forall|j: int| i <= j < n ==> !(#[trigger] known_segment_at(p@, j)),
        decreases i,
    {
        i = i - 1;
        let found = segment_at(p, i, "_retail_") || segment_at(p, i, "_classic_") || segment_at(
            p,
            i,
            "_ptr_",
        );
        if found {
            let root = if i == 0 {
                String::new()
            } else {
                p.substring_char(0, i - 1).to_owned()
            };
            proof {
                assert(known_segment_at(p@, i as int));
                assert(root@ =~= parent_prefix(p@, i as int));
                assert(forall|j: int| i < j < p@.len() ==> !(#[trigger] known_segment_at(p@, j)));
                assert(resolves_to(p@, root@)) by {
                    assert(known_segment_at(p@, i as int) && root@ == parent_prefix(p@, i as int)
                        && forall|j: int| i < j < p@.len() ==> !known_segment_at(p@, j));
                }
            }
            return Option::Some(root);
        }
    }
    Option::None
}

} // verus!
