//! String helpers shared by the server: substring search, case folding,
//! trimming, decimal rendering, file-name extensions and exact comparison.

use vstd::prelude::*;
use vstd::string::*;

verus! {

/// What `str::to_lowercase` returns for a given character sequence.
pub uninterp spec fn lower_of(s: Seq<char>) -> Seq<char>;

/// Relies on str::to_lowercase: the result depends on the characters alone.
#[verifier::external_body]
pub(crate) fn to_lowercase(s: &str) -> (r: String)
    ensures
        r@ == lower_of(s@),
{
    s.to_lowercase()
}

/// Whether `char::is_whitespace` accepts a character.
pub uninterp spec fn char_is_whitespace(c: char) -> bool;

/// Relies on char::is_whitespace: the result depends on the character alone.
pub assume_specification[ char::is_whitespace ](c: char) -> (r: bool)
    ensures
        r == char_is_whitespace(c),
;

/// The characters of `s`, one by one.
pub fn chars_of(s: &str) -> (v: Vec<char>)
    ensures
        v@ == s@,
{
    let len: usize = s.unicode_len();
    let mut v: Vec<char> = Vec::new();
    let mut i: usize = 0;
    while i < len
        invariant
            i <= len,
            len == s@.len(),
            v@ == s@.subrange(0, i as int),
        decreases len - i,
    {
        v.push(s.get_char(i));
        assert(v@ =~= s@.subrange(0, i as int + 1));
        i = i + 1;
    }
    assert(v@ =~= s@);
    v
}

/// `n` occurs in `h` starting at position `i`.
pub open spec fn is_match_at(h: Seq<char>, n: Seq<char>, i: int) -> bool {
    0 <= i && i + n.len() <= h.len() && h.subrange(i, i + n.len()) == n
}

/// `n` occurs somewhere in `h`.
pub open spec fn contains_seq(h: Seq<char>, n: Seq<char>) -> bool {
    exists|i: int| is_match_at(h, n, i)
}

/// Whether `needle` occurs as a contiguous substring of `haystack`.
pub fn contains_substring(haystack: &str, needle: &str) -> (r: bool)
    ensures
        r == contains_seq(haystack@, needle@),
{
    let h = chars_of(haystack);
    let n = chars_of(needle);
    let h_len = h.len();
    let n_len = n.len();
    if n_len > h_len {
        assert(forall|i: int| !is_match_at(haystack@, needle@, i));
        return false;
    }
    if n_len == 0 {
        assert(haystack@.subrange(0, 0) =~= needle@);
        assert(is_match_at(haystack@, needle@, 0));
        return true;
    }
    let mut i: usize = 0;
    while i <= h_len - n_len
        invariant
            1 <= n_len <= h_len,
            i <= h_len - n_len + 1,
            h@ == haystack@,
            n@ == needle@,
            h_len == h@.len(),
            n_len == n@.len(),
            forall|k: int| 0 <= k < i ==> !is_match_at(haystack@, needle@, k),
        decreases h_len - n_len - i + 1,
    {
        let mut j: usize = 0;
        let mut matched = true;
        while matched && j < n_len
            invariant
                i + n_len <= h_len,
                h@ == haystack@,
                n@ == needle@,
                h_len == h@.len(),
                n_len == n@.len(),
                j <= n_len,
                matched ==> h@.subrange(i as int, i as int + j) == n@.subrange(0, j as int),
                !matched ==> !is_match_at(haystack@, needle@, i as int),
            decreases n_len - j + (if matched { 1int } else { 0int }),
        {
            if h[i + j] != n[j] {
                proof {
                    if is_match_at(haystack@, needle@, i as int) {
                        assert(h@.subrange(i as int, i as int + n_len)[j as int] == h@[i as int
                            + j]);
                    }
                }
                matched = false;
            } else {
                assert(h@.subrange(i as int, i as int + j + 1) =~= h@.subrange(
                    i as int,
                    i as int + j,
                ).push(h@[i as int + j]));
                assert(n@.subrange(0, j as int + 1) =~= n@.subrange(0, j as int).push(n@[j as int]));
                j = j + 1;
            }
        }
        if matched {
            assert(h@.subrange(i as int, i as int + n_len) =~= n@);
            assert(is_match_at(haystack@, needle@, i as int));
            return true;
        }
        i = i + 1;
    }
    assert(forall|k: int| is_match_at(haystack@, needle@, k) ==> 0 <= k <= h_len - n_len);
    false
}

/// The character for one decimal digit.
pub open spec fn dec_digit(d: int) -> char {
    if d == 0 {
        '0'
    } else if d == 1 {
        '1'
    } else if d == 2 {
        '2'
    } else if d == 3 {
        '3'
    } else if d == 4 {
        '4'
    } else if d == 5 {
        '5'
    } else if d == 6 {
        '6'
    } else if d == 7 {
        '7'
    } else if d == 8 {
        '8'
    } else {
        '9'
    }
}

/// The decimal rendering of a natural number, most significant digit first.
pub open spec fn dec_rep(n: nat) -> Seq<char>
    decreases n,
{
    if n < 10 {
        seq![dec_digit(n as int)]
    } else {
        dec_rep(n / 10).push(dec_digit((n % 10) as int))
    }
}

/// The decimal rendering of an integer, with a leading minus sign when negative.
pub open spec fn int_rep(n: int) -> Seq<char> {
    if n < 0 {
        seq!['-'] + dec_rep((-n) as nat)
    } else {
        dec_rep(n as nat)
    }
}

fn digit_str(d: u64) -> (r: &'static str)
    requires
        d < 10,
    ensures
        r@ == seq![dec_digit(d as int)],
{
    let r = if d == 0 {
        "0"
    } else if d == 1 {
        "1"
    } else if d == 2 {
        "2"
    } else if d == 3 {
        "3"
    } else if d == 4 {
        "4"
    } else if d == 5 {
        "5"
    } else if d == 6 {
        "6"
    } else if d == 7 {
        "7"
    } else if d == 8 {
        "8"
    } else {
        "9"
    };
    proof {
        reveal_strlit("0");
        reveal_strlit("1");
        reveal_strlit("2");
        reveal_strlit("3");
        reveal_strlit("4");
        reveal_strlit("5");
        reveal_strlit("6");
        reveal_strlit("7");
        reveal_strlit("8");
        reveal_strlit("9");
        assert(r@ =~= seq![dec_digit(d as int)]);
    }
    r
}

/// `n` rendered in decimal.
pub fn u64_to_string(n: u64) -> (r: String)
    ensures
        r@ == dec_rep(n as nat),
    decreases n,
{
    if n < 10 {
        String::from_str(digit_str(n))
    } else {
        let mut s = u64_to_string(n / 10);
        s.append(digit_str(n % 10));
        proof {
            assert(s@ =~= dec_rep((n / 10) as nat).push(dec_digit((n % 10) as int)));
        }
        s
    }
}

/// `n` rendered in decimal, with a leading minus sign when negative.
pub fn i64_to_string(n: i64) -> (r: String)
    ensures
        r@ == int_rep(n as int),
{
    if n >= 0 {
        u64_to_string(n as u64)
    } else {
        let mag: u64 = if n == i64::MIN {
            9223372036854775808u64
        } else {
            (-n) as u64
        };
        assert(mag as nat == (-(n as int)) as nat);
        let mut s = String::from_str("-");
        proof {
            reveal_strlit("-");
        }
        let rest = u64_to_string(mag);
        s.append(rest.as_str());
        proof {
            assert(s@ =~= seq!['-'] + dec_rep((-(n as int)) as nat));
        }
        s
    }
}

/// `s` with leading whitespace removed.
pub open spec fn trim_start_spec(s: Seq<char>) -> Seq<char>
    decreases s.len(),
{
    if s.len() > 0 && char_is_whitespace(s[0]) {
        trim_start_spec(s.drop_first())
    } else {
        s
    }
}

/// `s` with trailing whitespace removed.
pub open spec fn trim_end_spec(s: Seq<char>) -> Seq<char>
    decreases s.len(),
{
    if s.len() > 0 && char_is_whitespace(s.last()) {
        trim_end_spec(s.drop_last())
    } else {
        s
    }
}

/// `s` with leading and trailing whitespace removed.
pub open spec fn trim_spec(s: Seq<char>) -> Seq<char> {
    trim_end_spec(trim_start_spec(s))
}

fn trim_start<'a>(s: &'a str) -> (r: &'a str)
    ensures
        r@ == trim_start_spec(s@),
    decreases s@.len(),
{
    let len = s.unicode_len();
    if len == 0 {
        return s;
    }
    let c = s.get_char(0);
    if c.is_whitespace() {
        let rest = s.substring_char(1, len);
        assert(rest@ =~= s@.drop_first());
        trim_start(rest)
    } else {
        s
    }
}

fn trim_end<'a>(s: &'a str) -> (r: &'a str)
    ensures
        r@ == trim_end_spec(s@),
    decreases s@.len(),
{
    let len = s.unicode_len();
    if len == 0 {
        return s;
    }
    let c = s.get_char(len - 1);
    if c.is_whitespace() {
        let rest = s.substring_char(0, len - 1);
        assert(rest@ =~= s@.drop_last());
        trim_end(rest)
    } else {
        s
    }
}

/// `s` with leading and trailing whitespace removed.
pub fn trim<'a>(s: &'a str) -> (r: &'a str)
    ensures
        r@ == trim_spec(s@),
{
    trim_end(trim_start(s))
}

/// The segment of `s` after its last `'.'`; all of `s` when it has none.
pub open spec fn after_last_dot(s: Seq<char>) -> Seq<char>
    decreases s.len(),
{
    if s.len() == 0 {
        s
    } else if s.last() == '.' {
        Seq::empty()
    } else {
        after_last_dot(s.drop_last()).push(s.last())
    }
}

proof fn lemma_after_last_dot_with_dot(s: Seq<char>, d: int)
    requires
        0 <= d < s.len(),
        s[d] == '.',
        forall|k: int| d < k < s.len() ==> s[k] != '.',
    ensures
        after_last_dot(s) == s.subrange(d + 1, s.len() as int),
    decreases s.len(),
{
    if d == s.len() - 1 {
        assert(after_last_dot(s) =~= s.subrange(d + 1, s.len() as int));
    } else {
        lemma_after_last_dot_with_dot(s.drop_last(), d);
        assert(after_last_dot(s) =~= s.subrange(d + 1, s.len() as int));
    }
}

proof fn lemma_after_last_dot_no_dot(s: Seq<char>)
    requires
        forall|k: int| 0 <= k < s.len() ==> s[k] != '.',
    ensures
        after_last_dot(s) == s,
    decreases s.len(),
{
    if s.len() > 0 {
        lemma_after_last_dot_no_dot(s.drop_last());
        assert(after_last_dot(s) =~= s);
    }
}

/// The index of the last `'.'` in `v`, if any.
fn last_dot_index(v: &Vec<char>) -> (r: Option<usize>)
    ensures
        match r {
            Some(d) => d < v@.len() && v@[d as int] == '.' && forall|k: int|
                d < k < v@.len() ==> v@[k] != '.',
            None => forall|k: int| 0 <= k < v@.len() ==> v@[k] != '.',
        },
{
    let mut i: usize = v.len();
    while i > 0
        invariant
            i <= v@.len(),
            forall|k: int| i <= k < v@.len() ==> v@[k] != '.',
        decreases i,
    {
        i = i - 1;
        if v[i] == '.' {
            return Some(i);
        }
    }
    None
}

/// The segment of `name` after its last `'.'`; all of `name` when it has none.
pub fn raw_extension_of<'a>(name: &'a str) -> (r: &'a str)
    ensures
        r@ == after_last_dot(name@),
{
    let v = chars_of(name);
    let len = v.len();
    match last_dot_index(&v) {
        Some(d) => {
            let sub = name.substring_char(d + 1, len);
            proof {
                lemma_after_last_dot_with_dot(name@, d as int);
            }
            sub
        },
        None => {
            proof {
                lemma_after_last_dot_no_dot(name@);
            }
            name
        },
    }
}

/// The extension stored for an uploaded file name: the trimmed segment after
/// the last `'.'`, or `jpg` when that segment is empty or is the whole name.
pub open spec fn spec_extension_of(s: Seq<char>) -> Seq<char> {
    let c = trim_spec(after_last_dot(s));
    if c.len() == 0 || c == s {
        "jpg"@
    } else {
        c
    }
}

/// The extension stored for an uploaded file name.
pub fn extension_of(name: &str) -> (r: String)
    ensures
        r@ == spec_extension_of(name@),
{
    let seg = raw_extension_of(name);
    let t = trim(seg);
    if t.unicode_len() == 0 {
        String::from_str("jpg")
    } else if str_eq(t, name) {
        String::from_str("jpg")
    } else {
        String::from_str(t)
    }
}

/// The mime type recorded for a stored file name, by its extension.
pub open spec fn spec_mime_of(filename: Seq<char>) -> Seq<char> {
    let e = after_last_dot(filename);
    if e == "png"@ {
        "image/png"@
    } else if e == "jpg"@ || e == "jpeg"@ {
        "image/jpeg"@
    } else if e == "webp"@ {
        "image/webp"@
    } else {
        "image/jpeg"@
    }
}

/// The mime type recorded for a stored file name.
pub fn mime_for(filename: &str) -> (r: String)
    ensures
        r@ == spec_mime_of(filename@),
{
    let e = raw_extension_of(filename);
    if str_eq(e, "png") {
        String::from_str("image/png")
    } else if str_eq(e, "jpg") {
        String::from_str("image/jpeg")
    } else if str_eq(e, "jpeg") {
        String::from_str("image/jpeg")
    } else if str_eq(e, "webp") {
        String::from_str("image/webp")
    } else {
        String::from_str("image/jpeg")
    }
}

/// Whether two strings hold the same characters.
pub fn str_eq(a: &str, b: &str) -> (r: bool)
    ensures
        r == (a@ == b@),
{
    let av = chars_of(a);
    let bv = chars_of(b);
    if av.len() != bv.len() {
        return false;
    }
    let len = av.len();
    let mut i: usize = 0;
    while i < len
        invariant
            len == av.len() == bv.len(),
            av@ == a@,
            bv@ == b@,
            i <= len,
            forall|k: int| 0 <= k < i ==> a@[k] == b@[k],
        decreases len - i,
    {
        if av[i] != bv[i] {
            return false;
        }
        i = i + 1;
    }
    assert(a@ =~= b@);
    true
}

} // verus!
