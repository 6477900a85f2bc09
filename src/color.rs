use vstd::prelude::*;
use vstd::string::*;

verus! {

/// The color used when a requested one is not a six-digit hex code.
pub const FALLBACK_COLOR: &'static str = "#00d4ff";

pub open spec fn is_hex_digit(c: char) -> bool {
    ('0' <= c && c <= '9') || ('a' <= c && c <= 'f') || ('A' <= c && c <= 'F')
}

/// Number of leading `#` characters.
pub open spec fn leading_hashes(s: Seq<char>) -> int
    decreases s.len(),
{
    if s.len() > 0 && s[0] == '#' {
        1 + leading_hashes(s.skip(1))
    } else {
        0
    }
}

/// `s` without its leading `#` characters.
pub open spec fn trim_hashes(s: Seq<char>) -> Seq<char> {
    s.skip(leading_hashes(s))
}

pub open spec fn is_hex_code(h: Seq<char>) -> bool {
    h.len() == 6 && forall|i: int| 0 <= i < 6 ==> is_hex_digit(#[trigger] h[i])
}

/// `#` and the six digits when `s`, leading `#`s aside, is a six-digit hex
/// code; the fallback color otherwise.
pub open spec fn sanitized_hex(s: Seq<char>) -> Seq<char> {
    if is_hex_code(trim_hashes(s)) {
        seq!['#'] + trim_hashes(s)
    } else {
        FALLBACK_COLOR@
    }
}

proof fn lemma_leading_hashes(s: Seq<char>)
    ensures
        0 <= leading_hashes(s) <= s.len(),
        forall|j: int| 0 <= j < leading_hashes(s) ==> s[j] == '#',
        leading_hashes(s) < s.len() ==> s[leading_hashes(s)] != '#',
    decreases s.len(),
{
    if s.len() > 0 && s[0] == '#' {
        lemma_leading_hashes(s.skip(1));
        assert forall|j: int| 0 <= j < leading_hashes(s) implies s[j] == '#' by {
            if j > 0 {
                assert(s[j] == s.skip(1)[j - 1]);
            }
        }
        if leading_hashes(s) < s.len() {
            assert(s[leading_hashes(s)] == s.skip(1)[leading_hashes(s.skip(1))]);
        }
    }
}

fn hex_digit(c: char) -> (r: bool)
    ensures
        r == is_hex_digit(c),
{
    ('0' <= c && c <= '9') || ('a' <= c && c <= 'f') || ('A' <= c && c <= 'F')
}

/// Normalises a color: strips leading `#`s and keeps a six-digit hex code,
/// else falls back to cyan.
pub fn sanitize_hex(hex: &str) -> (r: String)
    ensures
        r@ == sanitized_hex(hex@),
{
    proof {
        lemma_leading_hashes(hex@);
    }
    let n = hex.unicode_len();
    let mut i: usize = 0;
    while i < n && hex.get_char(i) == '#'
        invariant
            n == hex@.len(),
            i <= n,
            forall|j: int| 0 <= j < i ==> hex@[j] == '#',
            i <= leading_hashes(hex@),
        decreases n - i,
    {
        proof {
            lemma_leading_hashes(hex@);
        }
        i = i + 1;
    }
    proof {
        if i < leading_hashes(hex@) {
            assert(hex@[i as int] == '#');
        }
    }
    let ghost t = trim_hashes(hex@);
    assert(t =~= hex@.subrange(i as int, n as int));
    let mut ok = n - i == 6;
    let mut k: usize = i;
    while ok && k < n
        invariant
            i <= k <= n,
            n == hex@.len(),
            t == hex@.subrange(i as int, n as int),
            ok ==> n - i == 6,
            ok ==> forall|j: int| 0 <= j < k - i ==> is_hex_digit(#[trigger] t[j]),
            !ok ==> !is_hex_code(t),
        decreases n - k,
    {
        let c = hex.get_char(k);
        if !hex_digit(c) {
            assert(t[k - i] == c);
            ok = false;
        }
        k = k + 1;
    }
    if ok {
        let mut r = String::from_str("#");
        r.append(hex.substring_char(i, n));
        proof {
            reveal_strlit("#");
        }
        assert(r@ =~= seq!['#'] + t);
        r
    } else {
        String::from_str(FALLBACK_COLOR)
    }
}

} // verus!
