//! The extension matcher: decides from a member name alone whether the
//! entry counts as an image, by a case-insensitive match of its final
//! extension against a fixed set of image extensions.

use vstd::prelude::*;

verus! {

/// ASCII lower-casing of a single character; anything outside `A`..=`Z`
/// is left unchanged.
pub open spec fn lower_char(c: char) -> char {
    match c {
        'A' => 'a',
        'B' => 'b',
        'C' => 'c',
        'D' => 'd',
        'E' => 'e',
        'F' => 'f',
        'G' => 'g',
        'H' => 'h',
        'I' => 'i',
        'J' => 'j',
        'K' => 'k',
        'L' => 'l',
        'M' => 'm',
        'N' => 'n',
        'O' => 'o',
        'P' => 'p',
        'Q' => 'q',
        'R' => 'r',
        'S' => 's',
        'T' => 't',
        'U' => 'u',
        'V' => 'v',
        'W' => 'w',
        'X' => 'x',
        'Y' => 'y',
        'Z' => 'z',
        _ => c,
    }
}

/// ASCII upper-casing of a single character; anything outside `a`..=`z`
/// is left unchanged.
pub open spec fn upper_char(c: char) -> char {
    match c {
        'a' => 'A',
        'b' => 'B',
        'c' => 'C',
        'd' => 'D',
        'e' => 'E',
        'f' => 'F',
        'g' => 'G',
        'h' => 'H',
        'i' => 'I',
        'j' => 'J',
        'k' => 'K',
        'l' => 'L',
        'm' => 'M',
        'n' => 'N',
        'o' => 'O',
        'p' => 'P',
        'q' => 'Q',
        'r' => 'R',
        's' => 'S',
        't' => 'T',
        'u' => 'U',
        'v' => 'V',
        'w' => 'W',
        'x' => 'X',
        'y' => 'Y',
        'z' => 'Z',
        _ => c,
    }
}

pub open spec fn lower_seq(s: Seq<char>) -> Seq<char> {
    s.map_values(|c: char| lower_char(c))
}

pub open spec fn upper_seq(s: Seq<char>) -> Seq<char> {
    s.map_values(|c: char| upper_char(c))
}

/// Membership in the fixed set of image extensions. The argument is the
/// already lower-cased tail of the name, from its last dot to its end.
pub open spec fn is_image_ext(e: Seq<char>) -> bool {
    ||| e == seq!['.', 'j', 'p', 'g']
    ||| e == seq!['.', 'j', 'p', 'e', 'g']
    ||| e == seq!['.', 'p', 'n', 'g']
    ||| e == seq!['.', 'g', 'i', 'f']
    ||| e == seq!['.', 'b', 'm', 'p']
    ||| e == seq!['.', 't', 'i', 'f', 'f']
    ||| e == seq!['.', 'w', 'e', 'b', 'p']
    ||| e == seq!['.', 'i', 'c', 'o']
}

/// `d` is the position of the last dot of `s`.
pub open spec fn last_dot_at(s: Seq<char>, d: int) -> bool {
    &&& 0 <= d < s.len()
    &&& s[d] == '.'
    &&& forall|j: int| d < j < s.len() ==> s[j] != '.'
}

/// What the extension matcher decides: a non-empty name that does not
/// denote a directory, whose extension (from its last dot, lower-cased)
/// is one of the image extensions.
pub open spec fn spec_is_image(s: Seq<char>) -> bool {
    &&& s.len() > 0
    &&& s[s.len() - 1] != '/'
    &&& exists|d: int| last_dot_at(s, d) && is_image_ext(lower_seq(s.subrange(d, s.len() as int)))
}

fn to_lower(c: char) -> (r: char)
    ensures
        r == lower_char(c),
{
    match c {
        'A' => 'a',
        'B' => 'b',
        'C' => 'c',
        'D' => 'd',
        'E' => 'e',
        'F' => 'f',
        'G' => 'g',
        'H' => 'h',
        'I' => 'i',
        'J' => 'j',
        'K' => 'k',
        'L' => 'l',
        'M' => 'm',
        'N' => 'n',
        'O' => 'o',
        'P' => 'p',
        'Q' => 'q',
        'R' => 'r',
        'S' => 's',
        'T' => 't',
        'U' => 'u',
        'V' => 'v',
        'W' => 'w',
        'X' => 'x',
        'Y' => 'y',
        'Z' => 'z',
        _ => c,
    }
}

/// Whether the tail of `name` from position `d` (which holds its last
/// dot) is one of the image extensions, up to case.
fn ext_matches(name: &str, d: usize, n: usize) -> (r: bool)
    requires
        n == name@.len(),
        d < n,
        name@[d as int] == '.',
    ensures
        r == is_image_ext(lower_seq(name@.subrange(d as int, n as int))),
{
    let ghost e = lower_seq(name@.subrange(d as int, n as int));
    let len = n - d;
    proof {
        assert(e.len() == len);
        assert(e[0] == lower_char('.'));
    }
    if len == 4 {
        let c1 = to_lower(name.get_char(d + 1));
        let c2 = to_lower(name.get_char(d + 2));
        let c3 = to_lower(name.get_char(d + 3));
        proof {
            assert(e[1] == c1 && e[2] == c2 && e[3] == c3);
        }
        let r = (c1 == 'j' && c2 == 'p' && c3 == 'g') || (c1 == 'p' && c2 == 'n' && c3 == 'g')
            || (c1 == 'g' && c2 == 'i' && c3 == 'f') || (c1 == 'b' && c2 == 'm' && c3 == 'p')
            || (c1 == 'i' && c2 == 'c' && c3 == 'o');
        proof {
            if r {
                assert(is_image_ext(e)) by {
                    if c1 == 'j' && c2 == 'p' && c3 == 'g' {
                        assert(e =~= seq!['.', 'j', 'p', 'g']);
                    } else if c1 == 'p' && c2 == 'n' && c3 == 'g' {
                        assert(e =~= seq!['.', 'p', 'n', 'g']);
                    } else if c1 == 'g' && c2 == 'i' && c3 == 'f' {
                        assert(e =~= seq!['.', 'g', 'i', 'f']);
                    } else if c1 == 'b' && c2 == 'm' && c3 == 'p' {
                        assert(e =~= seq!['.', 'b', 'm', 'p']);
                    } else {
                        assert(e =~= seq!['.', 'i', 'c', 'o']);
                    }
                }
            }
        }
        r
    } else if len == 5 {
        let c1 = to_lower(name.get_char(d + 1));
        let c2 = to_lower(name.get_char(d + 2));
        let c3 = to_lower(name.get_char(d + 3));
        let c4 = to_lower(name.get_char(d + 4));
        proof {
            assert(e[1] == c1 && e[2] == c2 && e[3] == c3 && e[4] == c4);
        }
        let r = (c1 == 'j' && c2 == 'p' && c3 == 'e' && c4 == 'g')
            || (c1 == 't' && c2 == 'i' && c3 == 'f' && c4 == 'f')
            || (c1 == 'w' && c2 == 'e' && c3 == 'b' && c4 == 'p');
        proof {
            if r {
                assert(is_image_ext(e)) by {
                    if c1 == 'j' && c2 == 'p' && c3 == 'e' && c4 == 'g' {
                        assert(e =~= seq!['.', 'j', 'p', 'e', 'g']);
                    } else if c1 == 't' && c2 == 'i' && c3 == 'f' && c4 == 'f' {
                        assert(e =~= seq!['.', 't', 'i', 'f', 'f']);
                    } else {
                        assert(e =~= seq!['.', 'w', 'e', 'b', 'p']);
                    }
                }
            }
        }
        r
    } else {
        false
    }
}

/// Decides whether `name` names an image file: non-empty, no trailing
/// path separator, and a last extension from the fixed image set,
/// matched without regard to ASCII case.
pub fn is_image(name: &str) -> (r: bool)
    ensures
        r == spec_is_image(name@),
{
    let n = name.unicode_len();
    if n == 0 {
        return false;
    }
    if name.get_char(n - 1) == '/' {
        return false;
    }
    let mut i: usize = n;
    while i > 0
        invariant
            n == name@.len(),
            0 < n,
            name@[n - 1] != '/',
            i <= n,
            forall|j: int| i <= j < n ==> name@[j] != '.',
        decreases i,
    {
        if name.get_char(i - 1) == '.' {
            let r = ext_matches(name, i - 1, n);
            proof {
                let s = name@;
                let d0 = (i - 1) as int;
                assert(last_dot_at(s, d0));
                assert forall|d: int| last_dot_at(s, d) implies d == d0 by {
                    if d < d0 {
                        assert(s[d0] != '.');
                    } else if d > d0 {
                        assert(s[d] != '.');
                    }
                }
                if r {
                    assert(last_dot_at(s, d0) && is_image_ext(
                        lower_seq(s.subrange(d0, s.len() as int)),
                    ));
                } else if spec_is_image(s) {
                    let d = choose|d: int|
                        last_dot_at(s, d) && is_image_ext(lower_seq(s.subrange(d, s.len() as int)));
                    assert(d == d0);
                    assert(false);
                }
            }
            return r;
        }
        i = i - 1;
    }
    proof {
        assert forall|d: int| !last_dot_at(name@, d) by {
            if 0 <= d < name@.len() {
                assert(name@[d] != '.');
            }
        }
    }
    false
}

/// The matcher is insensitive to ASCII case: upper-casing every
/// character of a name never changes its verdict.
pub proof fn lemma_is_image_case_insensitive(s: Seq<char>)
    ensures
        spec_is_image(upper_seq(s)) == spec_is_image(s),
{
    let u = upper_seq(s);
    assert(u.len() == s.len());
    if s.len() > 0 {
        assert(u[s.len() - 1] == upper_char(s[s.len() - 1]));
        assert((u[s.len() - 1] == '/') == (s[s.len() - 1] == '/'));
        assert forall|d: int| last_dot_at(u, d) == last_dot_at(s, d) by {
            assert forall|j: int| 0 <= j < s.len() implies (u[j] == '.') == (s[j] == '.') by {
                assert(u[j] == upper_char(s[j]));
            }
        }
        assert forall|d: int| 0 <= d < s.len() implies lower_seq(
            u.subrange(d, u.len() as int),
        ) == lower_seq(s.subrange(d, s.len() as int)) by {
            let lu = lower_seq(u.subrange(d, u.len() as int));
            let ls = lower_seq(s.subrange(d, s.len() as int));
            assert forall|j: int| 0 <= j < lu.len() implies lu[j] == ls[j] by {
                assert(lu[j] == lower_char(upper_char(s[d + j])));
                assert(ls[j] == lower_char(s[d + j]));
            }
            assert(lu =~= ls);
        }
        if spec_is_image(s) {
            let d = choose|d: int|
                last_dot_at(s, d) && is_image_ext(lower_seq(s.subrange(d, s.len() as int)));
            assert(last_dot_at(u, d) && is_image_ext(lower_seq(u.subrange(d, u.len() as int))));
        }
        if spec_is_image(u) {
            let d = choose|d: int|
                last_dot_at(u, d) && is_image_ext(lower_seq(u.subrange(d, u.len() as int)));
            assert(last_dot_at(s, d) && is_image_ext(lower_seq(s.subrange(d, s.len() as int))));
        }
    }
}

} // verus!
