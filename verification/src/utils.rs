//! String-level building blocks: substring search and replacement, name
//! validation, decimal rendering of ids, path joining and path expansion.
//!
//! All algorithms work on vectors of characters so that every step is plain
//! verified code; conversion to and from `String` happens at the edges.

use vstd::prelude::*;
use vstd::string::StrSliceExecFns;
use crate::error::CacheError;
use crate::CacheResult;

verus! {

/// The pattern `p` occurs in `h` starting at position `i`.
pub open spec fn sub_at(h: Seq<char>, p: Seq<char>, i: int) -> bool {
    0 <= i && i + p.len() <= h.len() && h.subrange(i, i + p.len() as int) == p
}

/// The pattern `p` occurs somewhere in `h`.
pub open spec fn contains_sub(h: Seq<char>, p: Seq<char>) -> bool {
    exists|i: int| sub_at(h, p, i)
}

/// Left-to-right, non-overlapping replacement of every occurrence of `p` in
/// `h` by `r`, matching the semantics of `str::replace` for non-empty
/// patterns.  An empty pattern leaves `h` unchanged.
pub open spec fn spec_replace(h: Seq<char>, p: Seq<char>, r: Seq<char>) -> Seq<char>
    decreases h.len(),
{
    if p.len() == 0 || h.len() < p.len() {
        h
    } else if h.subrange(0, p.len() as int) == p {
        r + spec_replace(h.skip(p.len() as int), p, r)
    } else {
        seq![h[0]] + spec_replace(h.skip(1), p, r)
    }
}

/// Converts a string slice to the vector of its characters.
pub fn str_to_chars(s: &str) -> (v: Vec<char>)
    ensures
        v@ == s@,
{
    let n = s.unicode_len();
    let mut v: Vec<char> = Vec::new();
    let mut i: usize = 0;
    while i < n
        invariant
            n == s@.len(),
            i <= n,
            v@ == s@.subrange(0, i as int),
        decreases n - i,
    {
        v.push(s.get_char(i));
        i = i + 1;
        proof {
            assert(v@ =~= s@.subrange(0, i as int));
        }
    }
    proof {
        assert(v@ =~= s@);
    }
    v
}

/// Appends one character to a string.
///
/// Relies on `String::push`, which appends the given `char` to the end of
/// the string.
#[verifier::external_body]
fn push_char(s: &mut String, c: char)
    ensures
        final(s)@ == old(s)@ + seq![c],
{
    s.push(c);
}

/// Builds a `String` from a vector of characters.
pub fn chars_to_string(v: &Vec<char>) -> (s: String)
    ensures
        s@ == v@,
{
    let mut s = String::new();
    let mut i: usize = 0;
    while i < v.len()
        invariant
            i <= v@.len(),
            s@ == v@.subrange(0, i as int),
        decreases v@.len() - i,
    {
        push_char(&mut s, v[i]);
        i = i + 1;
        proof {
            assert(s@ =~= v@.subrange(0, i as int));
        }
    }
    proof {
        assert(s@ =~= v@);
    }
    s
}

/// Whether `p` occurs in `h` at position `i`.
fn matches_at(h: &Vec<char>, p: &Vec<char>, i: usize) -> (b: bool)
    requires
        i + p@.len() <= h@.len(),
    ensures
        b == sub_at(h@, p@, i as int),
{
    // the call records that the vector's length fits a usize
    let _hlen = h.len();
    let mut j: usize = 0;
    while j < p.len()
        invariant
            i + p@.len() <= h@.len() <= usize::MAX,
            j <= p@.len(),
            forall|k: int| 0 <= k < j ==> h@[i + k] == p@[k],
        decreases p@.len() - j,
    {
        if h[i + j] != p[j] {
            proof {
                assert(h@.subrange(i as int, i + p@.len() as int)[j as int] == h@[i + j]);
            }
            return false;
        }
        j = j + 1;
    }
    proof {
        assert(h@.subrange(i as int, i + p@.len() as int) =~= p@);
    }
    true
}

/// Whether the pattern `p` occurs anywhere in `h`.
pub fn contains_chars(h: &Vec<char>, p: &Vec<char>) -> (b: bool)
    ensures
        b == contains_sub(h@, p@),
{
    if p.len() == 0 {
        proof {
            assert(h@.subrange(0, 0) =~= p@);
            assert(sub_at(h@, p@, 0));
        }
        return true;
    }
    if p.len() > h.len() {
        proof {
            assert(forall|i: int| !sub_at(h@, p@, i));
        }
        return false;
    }
    let mut i: usize = 0;
    while i <= h.len() - p.len()
        invariant
            0 < p@.len() <= h@.len(),
            i <= h@.len() - p@.len() + 1,
            forall|k: int| 0 <= k < i ==> !sub_at(h@, p@, k),
        decreases h@.len() - p@.len() - i + 1,
    {
        if matches_at(h, p, i) {
            return true;
        }
        i = i + 1;
    }
    proof {
        assert(forall|k: int| sub_at(h@, p@, k) ==> k + p@.len() <= h@.len() && 0 <= k);
        assert(forall|k: int| 0 <= k < i ==> !sub_at(h@, p@, k));
    }
    false
}

/// Whether `h` contains the single character `c`.
pub fn contains_char(h: &Vec<char>, c: char) -> (b: bool)
    ensures
        b == h@.contains(c),
{
    let mut i: usize = 0;
    while i < h.len()
        invariant
            i <= h@.len(),
            forall|k: int| 0 <= k < i ==> h@[k] != c,
        decreases h@.len() - i,
    {
        if h[i] == c {
            return true;
        }
        i = i + 1;
    }
    false
}

/// One unfolding step of `spec_replace` at a match.
proof fn lemma_replace_step_match(h: Seq<char>, p: Seq<char>, r: Seq<char>)
    requires
        p.len() > 0,
        p.len() <= h.len(),
        h.subrange(0, p.len() as int) == p,
    ensures
        spec_replace(h, p, r) == r + spec_replace(h.skip(p.len() as int), p, r),
{
}

/// One unfolding step of `spec_replace` at a mismatch.
proof fn lemma_replace_step_miss(h: Seq<char>, p: Seq<char>, r: Seq<char>)
    requires
        p.len() > 0,
        h.len() > 0,
        h.len() < p.len() || h.subrange(0, p.len() as int) != p,
    ensures
        spec_replace(h, p, r) == seq![h[0]] + spec_replace(h.skip(1), p, r),
{
    if h.len() < p.len() {
        assert(h =~= seq![h[0]] + h.skip(1));
        assert(h.skip(1).len() < p.len());
    }
}

/// Replaces every occurrence of `p` in `h` by `r`, left to right and
/// non-overlapping.
pub fn replace_chars(h: &Vec<char>, p: &Vec<char>, r: &Vec<char>) -> (out: Vec<char>)
    ensures
        out@ == spec_replace(h@, p@, r@),
{
    if p.len() == 0 {
        let mut out: Vec<char> = Vec::new();
        let mut i: usize = 0;
        while i < h.len()
            invariant
                i <= h@.len(),
                out@ == h@.subrange(0, i as int),
            decreases h@.len() - i,
        {
            out.push(h[i]);
            i = i + 1;
            proof {
                assert(out@ =~= h@.subrange(0, i as int));
            }
        }
        proof {
            assert(out@ =~= h@);
        }
        return out;
    }
    let mut out: Vec<char> = Vec::new();
    let mut i: usize = 0;
    proof {
        assert(h@.skip(0) =~= h@);
        assert(Seq::<char>::empty() + spec_replace(h@, p@, r@) =~= spec_replace(h@, p@, r@));
    }
    while i < h.len()
        invariant
            p@.len() > 0,
            i <= h@.len(),
            spec_replace(h@, p@, r@) == out@ + spec_replace(h@.skip(i as int), p@, r@),
        decreases h@.len() - i,
    {
        let ghost rest = h@.skip(i as int);
        if h.len() - i >= p.len() && matches_at(h, p, i) {
            proof {
                assert(rest.subrange(0, p@.len() as int) =~= h@.subrange(
                    i as int,
                    i + p@.len() as int,
                ));
                lemma_replace_step_match(rest, p@, r@);
                assert(rest.skip(p@.len() as int) =~= h@.skip(i + p@.len() as int));
            }
            let mut j: usize = 0;
            let ghost out0 = out@;
            while j < r.len()
                invariant
                    j <= r@.len(),
                    out@ == out0 + r@.subrange(0, j as int),
                decreases r@.len() - j,
            {
                out.push(r[j]);
                j = j + 1;
                proof {
                    assert(out@ =~= out0 + r@.subrange(0, j as int));
                }
            }
            proof {
                assert(out@ =~= out0 + r@);
                assert((out0 + r@) + spec_replace(h@.skip(i + p@.len()), p@, r@) =~= out0 + (r@
                    + spec_replace(h@.skip(i + p@.len()), p@, r@)));
            }
            i = i + p.len();
        } else {
            proof {
                if rest.len() >= p@.len() {
                    assert(rest.subrange(0, p@.len() as int) =~= h@.subrange(
                        i as int,
                        i + p@.len() as int,
                    ));
                    assert(!sub_at(h@, p@, i as int));
                    assert(rest.subrange(0, p@.len() as int) != p@);
                }
                lemma_replace_step_miss(rest, p@, r@);
                assert(rest.skip(1) =~= h@.skip(i + 1));
                assert(rest[0] == h@[i as int]);
            }
            let ghost out0 = out@;
            out.push(h[i]);
            proof {
                assert((out0 + seq![h@[i as int]]) + spec_replace(h@.skip(i + 1), p@, r@) =~= out0
                    + (seq![h@[i as int]] + spec_replace(h@.skip(i + 1), p@, r@)));
            }
            i = i + 1;
        }
    }
    proof {
        assert(h@.skip(i as int) =~= Seq::<char>::empty());
        assert(spec_replace(Seq::<char>::empty(), p@, r@) =~= Seq::<char>::empty());
        assert(out@ + Seq::<char>::empty() =~= out@);
    }
    out
}

/// Equality of two string slices, decided character by character.
pub fn str_eq(a: &str, b: &str) -> (r: bool)
    ensures
        r == (a@ == b@),
{
    let va = str_to_chars(a);
    let vb = str_to_chars(b);
    if va.len() != vb.len() {
        return false;
    }
    let mut i: usize = 0;
    while i < va.len()
        invariant
            va@ == a@,
            vb@ == b@,
            va@.len() == vb@.len(),
            i <= va@.len(),
            forall|k: int| 0 <= k < i ==> va@[k] == vb@[k],
        decreases va@.len() - i,
    {
        if va[i] != vb[i] {
            proof {
                assert(a@ != b@) by {
                    if a@ == b@ {
                        assert(a@[i as int] == b@[i as int]);
                    }
                }
            }
            return false;
        }
        i = i + 1;
    }
    proof {
        assert(va@ =~= vb@);
    }
    true
}

/// A control character: the Unicode `Cc` category.
pub open spec fn char_is_control(c: char) -> bool {
    (c as u32) < 32 || (127 <= (c as u32) && (c as u32) <= 159)
}

/// Some character of `s` is a control character.
pub open spec fn has_control_char(s: Seq<char>) -> bool {
    exists|i: int| 0 <= i < s.len() && char_is_control(s[i])
}

/// A character Windows forbids in file names.
pub open spec fn windows_forbidden_char(c: char) -> bool {
    c == '<' || c == '>' || c == ':' || c == '"' || c == '|' || c == '?' || c == '*'
}

/// Some character of `s` is forbidden in Windows file names.
pub open spec fn has_windows_forbidden_char(s: Seq<char>) -> bool {
    exists|i: int| 0 <= i < s.len() && windows_forbidden_char(s[i])
}

/// The code point of `c` with a lower-case ASCII letter mapped to its
/// upper-case form; other characters are left as they are.
pub open spec fn ascii_upper_code(c: char) -> int {
    if 97 <= (c as u32) && (c as u32) <= 122 {
        (c as u32) - 32
    } else {
        (c as u32) as int
    }
}

/// `s` equals the word `w`, compared ASCII-case-insensitively, either exactly
/// or with a trailing extension introduced by a dot.
pub open spec fn matches_reserved_word(s: Seq<char>, w: Seq<char>) -> bool {
    &&& s.len() >= w.len()
    &&& forall|i: int| 0 <= i < w.len() ==> ascii_upper_code(s[i]) == ascii_upper_code(w[i])
    &&& (s.len() == w.len() || s[w.len() as int] == '.')
}

/// `s` is the three-letter prefix `w` followed by a digit `1` through `9`,
/// compared ASCII-case-insensitively, either exactly or with a trailing
/// extension introduced by a dot.
pub open spec fn matches_numbered_device(s: Seq<char>, w: Seq<char>) -> bool {
    &&& w.len() == 3
    &&& s.len() >= 4
    &&& forall|i: int| 0 <= i < 3 ==> ascii_upper_code(s[i]) == ascii_upper_code(w[i])
    &&& 49 <= (s[3] as u32) && (s[3] as u32) <= 57
    &&& (s.len() == 4 || s[4] == '.')
}

/// `s` is one of the names Windows reserves for devices (`CON`, `PRN`,
/// `AUX`, `NUL`, `COM1`-`COM9`, `LPT1`-`LPT9`), matched
/// ASCII-case-insensitively and with or without a trailing extension.
pub open spec fn spec_is_reserved_name(s: Seq<char>) -> bool {
    ||| matches_reserved_word(s, seq!['C', 'O', 'N'])
    ||| matches_reserved_word(s, seq!['P', 'R', 'N'])
    ||| matches_reserved_word(s, seq!['A', 'U', 'X'])
    ||| matches_reserved_word(s, seq!['N', 'U', 'L'])
    ||| matches_numbered_device(s, seq!['C', 'O', 'M'])
    ||| matches_numbered_device(s, seq!['L', 'P', 'T'])
}

/// A name acceptable as a cache object name on every platform: non-empty, at
/// most 255 characters, free of path separators, of `..` and of control
/// characters (the null byte among them).
pub open spec fn valid_name_common(s: Seq<char>) -> bool {
    &&& s.len() > 0
    &&& s.len() <= 255
    &&& !contains_sub(s, seq!['.', '.'])
    &&& !s.contains('/')
    &&& !s.contains('\\')
    &&& !has_control_char(s)
}

/// A name acceptable as a cache object name on the given platform; Windows
/// additionally rejects its forbidden characters and reserved device names.
pub open spec fn spec_valid_name(s: Seq<char>, windows: bool) -> bool {
    &&& valid_name_common(s)
    &&& windows ==> !has_windows_forbidden_char(s) && !spec_is_reserved_name(s)
}

/// Whether some character of `v` is a control character.
fn find_control_char(v: &Vec<char>) -> (b: bool)
    ensures
        b == has_control_char(v@),
{
    let mut i: usize = 0;
    while i < v.len()
        invariant
            i <= v@.len(),
            forall|k: int| 0 <= k < i ==> !char_is_control(v@[k]),
        decreases v@.len() - i,
    {
        let c = v[i] as u32;
        if c < 32 || (127 <= c && c <= 159) {
            return true;
        }
        i = i + 1;
    }
    false
}

/// Whether some character of `v` is forbidden in Windows file names.
fn find_windows_forbidden_char(v: &Vec<char>) -> (b: bool)
    ensures
        b == has_windows_forbidden_char(v@),
{
    let mut i: usize = 0;
    while i < v.len()
        invariant
            i <= v@.len(),
            forall|k: int| 0 <= k < i ==> !windows_forbidden_char(v@[k]),
        decreases v@.len() - i,
    {
        let c = v[i];
        if c == '<' || c == '>' || c == ':' || c == '"' || c == '|' || c == '?' || c == '*' {
            return true;
        }
        i = i + 1;
    }
    false
}

/// ASCII-case-insensitive equality of two characters.
fn ascii_upper_eq(a: char, b: char) -> (r: bool)
    ensures
        r == (ascii_upper_code(a) == ascii_upper_code(b)),
{
    let ca = a as u32;
    let cb = b as u32;
    let ua = if 97 <= ca && ca <= 122 {
        ca - 32
    } else {
        ca
    };
    let ub = if 97 <= cb && cb <= 122 {
        cb - 32
    } else {
        cb
    };
    ua == ub
}

/// Whether `v` matches the reserved word `c0 c1 c2`, exactly or with a
/// trailing extension.
fn matches_reserved3(v: &Vec<char>, c0: char, c1: char, c2: char) -> (b: bool)
    ensures
        b == matches_reserved_word(v@, seq![c0, c1, c2]),
{
    if v.len() < 3 {
        return false;
    }
    if !ascii_upper_eq(v[0], c0) || !ascii_upper_eq(v[1], c1) || !ascii_upper_eq(v[2], c2) {
        return false;
    }
    v.len() == 3 || v[3] == '.'
}

/// Whether `v` matches the numbered device family `c0 c1 c2` followed by a
/// digit `1` through `9`, exactly or with a trailing extension.
fn matches_numbered3(v: &Vec<char>, c0: char, c1: char, c2: char) -> (b: bool)
    ensures
        b == matches_numbered_device(v@, seq![c0, c1, c2]),
{
    if v.len() < 4 {
        return false;
    }
    if !ascii_upper_eq(v[0], c0) || !ascii_upper_eq(v[1], c1) || !ascii_upper_eq(v[2], c2) {
        return false;
    }
    let d = v[3] as u32;
    if !(49 <= d && d <= 57) {
        return false;
    }
    v.len() == 4 || v[4] == '.'
}

/// Whether `v` is one of the file names Windows reserves for devices.
fn is_reserved_device_name(v: &Vec<char>) -> (b: bool)
    ensures
        b == spec_is_reserved_name(v@),
{
    matches_reserved3(v, 'C', 'O', 'N') || matches_reserved3(v, 'P', 'R', 'N')
        || matches_reserved3(v, 'A', 'U', 'X') || matches_reserved3(v, 'N', 'U', 'L')
        || matches_numbered3(v, 'C', 'O', 'M') || matches_numbered3(v, 'L', 'P', 'T')
}

/// Validates a cache object name against the rules of the given platform.
///
/// A name passes exactly when it is non-empty, at most 255 characters long,
/// contains no `..`, no path separator and no control character, and - when
/// `windows` is set - no character of `< > : " | ? *` and none of the
/// reserved device names.  Every rejection is an `InvalidName` error.
pub fn validate_name_for_platform(name: &str, windows: bool) -> (r: CacheResult<()>)
    ensures
        r matches Ok(_) <==> spec_valid_name(name@, windows),
        r matches Err(e) ==> e matches CacheError::InvalidName(_),
{
    let v = str_to_chars(name);
    if v.len() == 0 {
        return Err(CacheError::InvalidName(String::from_str("Cache name cannot be empty")));
    }
    if v.len() > 255 {
        return Err(
            CacheError::InvalidName(
                String::from_str("Cache name too long (max 255 characters)"),
            ),
        );
    }
    let mut dots: Vec<char> = Vec::new();
    dots.push('.');
    dots.push('.');
    proof {
        assert(dots@ =~= seq!['.', '.']);
    }
    if contains_chars(&v, &dots) || contains_char(&v, '/') || contains_char(&v, '\\') {
        return Err(
            CacheError::InvalidName(
                String::from_str("Invalid cache name: contains path components"),
            ),
        );
    }
    if find_control_char(&v) {
        return Err(
            CacheError::InvalidName(
                String::from_str("Cache name cannot contain control characters"),
            ),
        );
    }
    if windows {
        if find_windows_forbidden_char(&v) {
            return Err(
                CacheError::InvalidName(
                    String::from_str("Cache name contains invalid character for Windows"),
                ),
            );
        }
        if is_reserved_device_name(&v) {
            return Err(
                CacheError::InvalidName(
                    String::from_str("Cache name is a reserved system name"),
                ),
            );
        }
    }
    Ok(())
}

/// Validates a cache object name against the rules of this (non-Windows)
/// platform: the name must be non-empty, at most 255 characters long, and
/// free of `..`, of path separators and of control characters.
pub fn validate_name(name: &str) -> (r: CacheResult<()>)
    ensures
        r matches Ok(_) <==> valid_name_common(name@),
        r matches Err(e) ==> e matches CacheError::InvalidName(_),
{
    validate_name_for_platform(name, false)
}

/// The character for a single decimal digit.
pub open spec fn spec_digit_char(d: int) -> char {
    if d == 0 {
        '0'
    } else if d == 1 {
        '1'
    } else if d == 2 {
        '2'
    } else if d == 3 {
        '3'
    } else if d == 4 {
        '4'
    } else if d == 5 {
        '5'
    } else if d == 6 {
        '6'
    } else if d == 7 {
        '7'
    } else if d == 8 {
        '8'
    } else {
        '9'
    }
}

/// The decimal rendering of a non-negative number, most significant digit
/// first and without leading zeros.
pub open spec fn spec_u32_digits(n: int) -> Seq<char>
    decreases n,
{
    if n < 10 {
        seq![spec_digit_char(n)]
    } else {
        spec_u32_digits(n / 10).push(spec_digit_char(n % 10))
    }
}

/// The character for a single decimal digit.
fn digit_char(d: u32) -> (c: char)
    requires
        d < 10,
    ensures
        c == spec_digit_char(d as int),
{
    if d == 0 {
        '0'
    } else if d == 1 {
        '1'
    } else if d == 2 {
        '2'
    } else if d == 3 {
        '3'
    } else if d == 4 {
        '4'
    } else if d == 5 {
        '5'
    } else if d == 6 {
        '6'
    } else if d == 7 {
        '7'
    } else if d == 8 {
        '8'
    } else {
        '9'
    }
}

/// Renders a number in decimal, most significant digit first.
pub fn u32_to_chars(n: u32) -> (v: Vec<char>)
    ensures
        v@ == spec_u32_digits(n as int),
    decreases n,
{
    if n < 10 {
        let mut v: Vec<char> = Vec::new();
        v.push(digit_char(n));
        proof {
            assert(v@ =~= seq![spec_digit_char(n as int)]);
        }
        v
    } else {
        let mut v = u32_to_chars(n / 10);
        v.push(digit_char(n % 10));
        v
    }
}

/// Joining a base directory and a file name with the platform separator: an
/// absolute file name stands on its own, an empty base contributes nothing,
/// and a separator is inserted only where the base does not already end in
/// one.
pub open spec fn spec_join_path(base: Seq<char>, file: Seq<char>) -> Seq<char> {
    if file.len() > 0 && file[0] == '/' {
        file
    } else if base.len() == 0 {
        file
    } else if base[base.len() - 1] == '/' {
        base + file
    } else {
        base + seq!['/'] + file
    }
}

/// Joins a base directory and a file name as `spec_join_path` describes.
pub fn join_path_chars(base: &Vec<char>, file: &Vec<char>) -> (v: Vec<char>)
    ensures
        v@ == spec_join_path(base@, file@),
{
    if (file.len() > 0 && file[0] == '/') || base.len() == 0 {
        let mut v: Vec<char> = Vec::new();
        let mut i: usize = 0;
        while i < file.len()
            invariant
                i <= file@.len(),
                v@ == file@.subrange(0, i as int),
            decreases file@.len() - i,
        {
            v.push(file[i]);
            i = i + 1;
            proof {
                assert(v@ =~= file@.subrange(0, i as int));
            }
        }
        proof {
            assert(v@ =~= file@);
        }
        v
    } else {
        let mut v: Vec<char> = Vec::new();
        let mut i: usize = 0;
        while i < base.len()
            invariant
                i <= base@.len(),
                v@ == base@.subrange(0, i as int),
            decreases base@.len() - i,
        {
            v.push(base[i]);
            i = i + 1;
            proof {
                assert(v@ =~= base@.subrange(0, i as int));
            }
        }
        proof {
            assert(v@ =~= base@);
        }
        if base[base.len() - 1] != '/' {
            v.push('/');
        }
        let ghost mid = v@;
        let mut j: usize = 0;
        while j < file.len()
            invariant
                j <= file@.len(),
                v@ == mid + file@.subrange(0, j as int),
            decreases file@.len() - j,
        {
            v.push(file[j]);
            j = j + 1;
            proof {
                assert(v@ =~= mid + file@.subrange(0, j as int));
            }
        }
        proof {
            assert(file@.subrange(0, file@.len() as int) =~= file@);
            if base@[base@.len() - 1] == '/' {
                assert(v@ =~= base@ + file@);
            } else {
                assert(mid =~= base@ + seq!['/']);
                assert(v@ =~= base@ + seq!['/'] + file@);
            }
        }
        v
    }
}

/// The process environment values the path resolver may substitute, given
/// explicitly so that resolution itself stays a pure function.  A `None`
/// field is an unset variable, whose token is left in place.
pub struct EnvVars {
    pub temp: Option<String>,
    pub tmp: Option<String>,
    pub appdata: Option<String>,
    pub localappdata: Option<String>,
    pub userprofile: Option<String>,
}

impl EnvVars {
    /// An environment with every variable unset.
    pub fn empty() -> (r: Self)
        ensures
            r.temp is None,
            r.tmp is None,
            r.appdata is None,
            r.localappdata is None,
            r.userprofile is None,
    {
        EnvVars {
            temp: None,
            tmp: None,
            appdata: None,
            localappdata: None,
            userprofile: None,
        }
    }
}

/// Replacement of a token by an environment value, when the value is set.
pub open spec fn opt_env_replace(s: Seq<char>, pat: Seq<char>, v: Option<String>) -> Seq<char> {
    match v {
        Option::Some(x) => spec_replace(s, pat, x@),
        Option::None => s,
    }
}

/// Substitution of the five Windows environment tokens, in order.
pub open spec fn spec_expand_env(s: Seq<char>, e: EnvVars) -> Seq<char> {
    let s1 = opt_env_replace(s, "%temp%"@, e.temp);
    let s2 = opt_env_replace(s1, "%tmp%"@, e.tmp);
    let s3 = opt_env_replace(s2, "%appdata%"@, e.appdata);
    let s4 = opt_env_replace(s3, "%localappdata%"@, e.localappdata);
    opt_env_replace(s4, "%userprofile%"@, e.userprofile)
}

/// Expansion of a leading `~` to the home directory, when one is known.
pub open spec fn spec_expand_home(s: Seq<char>, home: Option<Seq<char>>) -> Seq<char> {
    if s.len() > 0 && s[0] == '~' && home is Some {
        home->0 + s.skip(1)
    } else {
        s
    }
}

/// The view of an optional string slice.
pub open spec fn spec_opt_str_view(o: Option<&str>) -> Option<Seq<char>> {
    match o {
        Option::Some(x) => Option::Some(x@),
        Option::None => Option::None,
    }
}

/// Full path resolution: on Windows the five environment tokens are
/// substituted first and forward slashes are normalized last; on every
/// platform a leading `~` becomes the home directory.  What cannot be
/// expanded is passed through unchanged.
pub open spec fn spec_resolve_path(
    s: Seq<char>,
    windows: bool,
    e: EnvVars,
    home: Option<Seq<char>>,
) -> Seq<char> {
    let s1 = if windows {
        spec_expand_env(s, e)
    } else {
        s
    };
    let s2 = spec_expand_home(s1, home);
    if windows {
        spec_replace(s2, seq!['/'], seq!['\\'])
    } else {
        s2
    }
}

/// Applies one environment token substitution to a character vector.
fn env_replace_step(v: Vec<char>, pat: &str, value: &Option<String>) -> (r: Vec<char>)
    ensures
        r@ == opt_env_replace(v@, pat@, *value),
{
    match value {
        Some(x) => {
            let p = str_to_chars(pat);
            let rep = str_to_chars(x.as_str());
            replace_chars(&v, &p, &rep)
        },
        None => v,
    }
}

/// Resolves a raw configured path: substitutes the given environment values
/// for their tokens (Windows only), expands a leading `~` to the given home
/// directory, and normalizes separators (Windows only).  Never fails: what
/// cannot be expanded stays in place.
pub fn resolve_path(path: &str, windows: bool, env: &EnvVars, home: Option<&str>) -> (r: String)
    ensures
        r@ == spec_resolve_path(path@, windows, *env, spec_opt_str_view(home)),
{
    let mut v = str_to_chars(path);
    if windows {
        v = env_replace_step(v, "%temp%", &env.temp);
        v = env_replace_step(v, "%tmp%", &env.tmp);
        v = env_replace_step(v, "%appdata%", &env.appdata);
        v = env_replace_step(v, "%localappdata%", &env.localappdata);
        v = env_replace_step(v, "%userprofile%", &env.userprofile);
    }
    if v.len() > 0 {
        let c = v[0];
        if c == '~' {
            match home {
                Some(h) => {
                    let mut out = str_to_chars(h);
                    let ghost hv = out@;
                    let mut i: usize = 1;
                    while i < v.len()
                        invariant
                            1 <= i <= v@.len(),
                            out@ == hv + v@.subrange(1, i as int),
                        decreases v@.len() - i,
                    {
                        out.push(v[i]);
                        i = i + 1;
                        proof {
                            assert(out@ =~= hv + v@.subrange(1, i as int));
                        }
                    }
                    proof {
                        assert(v@.subrange(1, v@.len() as int) =~= v@.skip(1));
                        assert(out@ =~= hv + v@.skip(1));
                    }
                    v = out;
                },
                None => {},
            }
        }
    }
    if windows {
        let mut slash: Vec<char> = Vec::new();
        slash.push('/');
        let mut backslash: Vec<char> = Vec::new();
        backslash.push('\\');
        proof {
            assert(slash@ =~= seq!['/']);
            assert(backslash@ =~= seq!['\\']);
        }
        v = replace_chars(&v, &slash, &backslash);
    }
    chars_to_string(&v)
}

/// Returns the current user's home directory rendered as a string, if one
/// is known.
///
/// Relies on `dirs::home_dir`: the result depends on the process
/// environment, so nothing is promised of the value.
#[verifier::external_body]
pub(crate) fn home_dir_string() -> Option<String> {
    dirs::home_dir().map(|p| p.to_string_lossy().to_string())
}

/// Expands a leading `~` in `path` to the current user's home directory,
/// when one is known; any other path is returned unchanged.  On this
/// platform no environment tokens are substituted and no separators are
/// rewritten.
pub fn expand_path(path: &str) -> (r: String)
    ensures
        exists|home: Option<Seq<char>>| r@ == spec_expand_home(path@, home),
{
    let env = EnvVars::empty();
    let home = home_dir_string();
    let r = match &home {
        Some(h) => resolve_path(path, false, &env, Some(h.as_str())),
        None => resolve_path(path, false, &env, None),
    };
    proof {
        match home {
            Option::Some(h) => {
                assert(r@ == spec_expand_home(path@, Option::Some(h@)));
            },
            Option::None => {
                assert(r@ == spec_expand_home(path@, Option::None));
            },
        }
    }
    r
}

} // verus!
