//! Character-level text handling: blank detection, whitespace trimming,
//! space stripping for phone matching, and sanitization of full-text queries.

use vstd::prelude::*;
use vstd::string::*;

verus! {

/// The characters Rust's `char::is_whitespace` accepts (the Unicode
/// whitespace set), which is also the set the full-text sanitizer keeps.
pub open spec fn is_ws_char(c: char) -> bool {
    let u = c as u32;
    u == 0x20 || (0x09 <= u && u <= 0x0d) || u == 0x85 || u == 0xa0 || u == 0x1680
        || (0x2000 <= u && u <= 0x200a) || u == 0x2028 || u == 0x2029 || u == 0x202f
        || u == 0x205f || u == 0x3000
}

/// A string is blank when every character in it is whitespace.
pub open spec fn spec_is_blank(s: Seq<char>) -> bool {
    forall|i: int| 0 <= i < s.len() ==> is_ws_char(s[i])
}

/// Characters the sanitizer passes through unchanged: ASCII letters and
/// digits, underscore, `*`, double-quote, and whitespace.
pub open spec fn is_kept_char(c: char) -> bool {
    let u = c as u32;
    (0x30 <= u && u <= 0x39) || (0x41 <= u && u <= 0x5a) || (0x61 <= u && u <= 0x7a)
        || u == 0x5f || u == 0x2a || u == 0x22 || is_ws_char(c)
}

/// Sanitization: every maximal run of characters outside the kept set
/// collapses to a single space; kept characters pass through in order.
pub open spec fn spec_sanitize(s: Seq<char>) -> Seq<char>
    decreases s.len(),
{
    if s.len() == 0 {
        Seq::<char>::empty()
    } else {
        let prefix = spec_sanitize(s.drop_last());
        if is_kept_char(s.last()) {
            prefix.push(s.last())
        } else if s.len() >= 2 && !is_kept_char(s[s.len() - 2]) {
            prefix
        } else {
            prefix.push(' ')
        }
    }
}

/// The string with leading whitespace removed.
pub open spec fn spec_trim_start(s: Seq<char>) -> Seq<char>
    decreases s.len(),
{
    if s.len() == 0 {
        s
    } else if is_ws_char(s[0]) {
        spec_trim_start(s.drop_first())
    } else {
        s
    }
}

/// The string with trailing whitespace removed.
pub open spec fn spec_trim_end(s: Seq<char>) -> Seq<char>
    decreases s.len(),
{
    if s.len() == 0 {
        s
    } else if is_ws_char(s.last()) {
        spec_trim_end(s.drop_last())
    } else {
        s
    }
}

/// The string with leading and trailing whitespace removed.
pub open spec fn spec_trim(s: Seq<char>) -> Seq<char> {
    spec_trim_end(spec_trim_start(s))
}

/// The string with every ASCII space removed (other whitespace stays).
pub open spec fn spec_strip_spaces(s: Seq<char>) -> Seq<char>
    decreases s.len(),
{
    if s.len() == 0 {
        Seq::<char>::empty()
    } else if s.last() == ' ' {
        spec_strip_spaces(s.drop_last())
    } else {
        spec_strip_spaces(s.drop_last()).push(s.last())
    }
}

/// Relies on std's `String::push`: appends the character to the end.
#[verifier::external_body]
fn push_char(s: &mut String, c: char)
    ensures
        final(s)@ == old(s)@.push(c),
{
    s.push(c);
}

pub fn is_ws(c: char) -> (r: bool)
    ensures
        r == is_ws_char(c),
{
    let u = c as u32;
    u == 0x20 || (0x09 <= u && u <= 0x0d) || u == 0x85 || u == 0xa0 || u == 0x1680
        || (0x2000 <= u && u <= 0x200a) || u == 0x2028 || u == 0x2029 || u == 0x202f
        || u == 0x205f || u == 0x3000
}

pub fn is_kept(c: char) -> (r: bool)
    ensures
        r == is_kept_char(c),
{
    let u = c as u32;
    (0x30 <= u && u <= 0x39) || (0x41 <= u && u <= 0x5a) || (0x61 <= u && u <= 0x7a)
        || u == 0x5f || u == 0x2a || u == 0x22 || is_ws(c)
}

pub fn is_blank(s: &str) -> (r: bool)
    ensures
        r == spec_is_blank(s@),
{
    let n = s.unicode_len();
    let mut i: usize = 0;
    while i < n
        invariant
            n == s@.len(),
            0 <= i <= n,
            forall|j: int| 0 <= j < i ==> is_ws_char(s@[j]),
        decreases n - i,
    {
        let c = s.get_char(i);
        if !is_ws(c) {
            return false;
        }
        i = i + 1;
    }
    true
}

/// Replaces every run of characters outside the kept set with one space.
pub fn sanitize_match(s: &str) -> (r: String)
    ensures
        r@ == spec_sanitize(s@),
{
    let n = s.unicode_len();
    let mut r = String::new();
    let mut prev_kept = true;
    let mut i: usize = 0;
    while i < n
        invariant
            n == s@.len(),
            0 <= i <= n,
            r@ == spec_sanitize(s@.subrange(0, i as int)),
            i > 0 ==> prev_kept == is_kept_char(s@[i as int - 1]),
        decreases n - i,
    {
        let c = s.get_char(i);
        let k = is_kept(c);
        proof {
            let pre = s@.subrange(0, i as int + 1);
            assert(pre.drop_last() =~= s@.subrange(0, i as int));
            assert(pre.last() == s@[i as int]);
            if i > 0 {
                assert(pre[pre.len() - 2] == s@[i as int - 1]);
            }
        }
        if k {
            push_char(&mut r, c);
        } else if i == 0 || prev_kept {
            push_char(&mut r, ' ');
        }
        prev_kept = k;
        i = i + 1;
    }
    proof {
        assert(s@.subrange(0, n as int) =~= s@);
    }
    r
}

/// Removes leading and trailing whitespace.
pub fn trim(s: &str) -> (r: String)
    ensures
        r@ == spec_trim(s@),
{
    let n = s.unicode_len();
    proof {
        assert(s@.subrange(0, n as int) =~= s@);
    }
    let mut a: usize = 0;
    while a < n && is_ws(s.get_char(a))
        invariant
            n == s@.len(),
            0 <= a <= n,
            spec_trim_start(s@) == spec_trim_start(s@.subrange(a as int, n as int)),
        decreases n - a,
    {
        proof {
            let cur = s@.subrange(a as int, n as int);
            assert(cur.drop_first() =~= s@.subrange(a as int + 1, n as int));
        }
        a = a + 1;
    }
    proof {
        let cur = s@.subrange(a as int, n as int);
        if a < n {
            assert(!is_ws_char(cur[0]));
        }
        assert(spec_trim_start(s@) == cur);
    }
    let mut b: usize = n;
    while b > a && is_ws(s.get_char(b - 1))
        invariant
            n == s@.len(),
            a <= b <= n,
            spec_trim_start(s@) == s@.subrange(a as int, n as int),
            spec_trim_end(s@.subrange(a as int, n as int)) == spec_trim_end(
                s@.subrange(a as int, b as int),
            ),
        decreases b - a,
    {
        proof {
            let cur = s@.subrange(a as int, b as int);
            assert(cur.last() == s@[b as int - 1]);
            assert(cur.drop_last() =~= s@.subrange(a as int, b as int - 1));
        }
        b = b - 1;
    }
    proof {
        let cur = s@.subrange(a as int, b as int);
        if b > a {
            assert(cur.last() == s@[b as int - 1]);
            assert(!is_ws_char(cur.last()));
        }
        assert(spec_trim(s@) == cur);
    }
    let t = s.substring_char(a, b);
    t.to_owned()
}

/// Removes every ASCII space character.
pub fn strip_spaces(s: &str) -> (r: String)
    ensures
        r@ == spec_strip_spaces(s@),
{
    let n = s.unicode_len();
    let mut r = String::new();
    let mut i: usize = 0;
    while i < n
        invariant
            n == s@.len(),
            0 <= i <= n,
            r@ == spec_strip_spaces(s@.subrange(0, i as int)),
        decreases n - i,
    {
        let c = s.get_char(i);
        proof {
            let pre = s@.subrange(0, i as int + 1);
            assert(pre.drop_last() =~= s@.subrange(0, i as int));
            assert(pre.last() == s@[i as int]);
        }
        if c != ' ' {
            push_char(&mut r, c);
        }
        i = i + 1;
    }
    proof {
        assert(s@.subrange(0, n as int) =~= s@);
    }
    r
}

/// Wraps the text in `%` marks, the engine's substring containment pattern.
pub fn wrap_like(t: &str) -> (r: String)
    ensures
        r@ == "%"@ + t@ + "%"@,
{
    let mut r = String::from_str("%");
    r.append(t);
    r.append("%");
    proof {
        assert(r@ =~= "%"@ + t@ + "%"@);
    }
    r
}

} // verus!
