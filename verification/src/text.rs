//! Text helpers shared by the views: decimal rendering of integers,
//! string equality and concatenation, ASCII case folding, and the two
//! std case conversions the status tables rely on.
use vstd::prelude::*;
use vstd::string::*;

verus! {

broadcast use vstd::string::group_string_axioms;

/// The character of a decimal digit `d` (`d < 10`).
pub open spec fn digit_char(d: nat) -> char {
    if d == 0 { '0' }
    else if d == 1 { '1' }
    else if d == 2 { '2' }
    else if d == 3 { '3' }
    else if d == 4 { '4' }
    else if d == 5 { '5' }
    else if d == 6 { '6' }
    else if d == 7 { '7' }
    else if d == 8 { '8' }
    else { '9' }
}

/// Decimal representation of a natural number, most significant digit first,
/// without leading zeros (as `Display` writes integers).
pub open spec fn dec(n: nat) -> Seq<char>
    decreases n,
{
    if n < 10 {
        seq![digit_char(n)]
    } else {
        dec(n / 10).push(digit_char(n % 10))
    }
}

/// Decimal representation of a signed integer (a leading `-` for negatives).
pub open spec fn dec_int(i: int) -> Seq<char> {
    if i < 0 { seq!['-'] + dec((-i) as nat) } else { dec(i as nat) }
}

/// How `bool` is displayed.
pub open spec fn bool_text(b: bool) -> Seq<char> {
    if b { seq!['t', 'r', 'u', 'e'] } else { seq!['f', 'a', 'l', 's', 'e'] }
}

/// ASCII lower-casing of one character; every other character is unchanged.
pub open spec fn ascii_lower(c: char) -> char {
    if 'A' <= c && c <= 'Z' { ((c as u32) + 32) as char } else { c }
}

/// ASCII case-insensitive equality of two texts.
pub open spec fn eq_ignore_ascii_case_spec(a: Seq<char>, b: Seq<char>) -> bool {
    &&& a.len() == b.len()
    &&& forall|i: int| 0 <= i < a.len() ==> ascii_lower(#[trigger] a[i]) == ascii_lower(b[i])
}

/// View of an optional string.
pub open spec fn opt_view(o: Option<String>) -> Option<Seq<char>> {
    match o {
        Some(s) => Some(s@),
        None => None,
    }
}

/// The text of an optional string, or `default` when it is absent.
pub open spec fn opt_or(o: Option<String>, default: Seq<char>) -> Seq<char> {
    match o {
        Some(s) => s@,
        None => default,
    }
}

/// An optional text that counts only when it is not empty.
pub open spec fn non_empty(v: Option<Seq<char>>) -> Option<Seq<char>> {
    match v {
        Some(s) => if s.len() > 0 { Some(s) } else { None },
        None => None,
    }
}

/// Views of a vector of strings.
pub open spec fn strs_view(v: Seq<String>) -> Seq<Seq<char>> {
    v.map_values(|s: String| s@)
}

/// The string for a single decimal digit.
fn digit_str(d: u64) -> (s: &'static str)
    requires
        d < 10,
    ensures
        s@ == seq![digit_char(d as nat)],
{
    let r = if d == 0 {
        "0"
    } else if d == 1 {
        "1"
    } else if d == 2 {
        "2"
    } else if d == 3 {
        "3"
    } else if d == 4 {
        "4"
    } else if d == 5 {
        "5"
    } else if d == 6 {
        "6"
    } else if d == 7 {
        "7"
    } else if d == 8 {
        "8"
    } else {
        "9"
    };
    proof {
        reveal_strlit("0");
        reveal_strlit("1");
        reveal_strlit("2");
        reveal_strlit("3");
        reveal_strlit("4");
        reveal_strlit("5");
        reveal_strlit("6");
        reveal_strlit("7");
        reveal_strlit("8");
        reveal_strlit("9");
    }
    r
}

/// Decimal text of an unsigned integer.
pub fn u64_text(n: u64) -> (s: String)
    ensures
        s@ == dec(n as nat),
    decreases n,
{
    if n < 10 {
        String::from_str(digit_str(n))
    } else {
        let mut s = u64_text(n / 10);
        s.append(digit_str(n % 10));
        s
    }
}

/// Decimal text of a signed integer.
pub fn i64_text(i: i64) -> (s: String)
    ensures
        s@ == dec_int(i as int),
{
    if i < 0 {
        let mag: u64 = if i == i64::MIN {
            9223372036854775808u64
        } else {
            (-i) as u64
        };
        let mut s = String::from_str("-");
        proof {
            reveal_strlit("-");
        }
        let digits = u64_text(mag);
        s.append(digits.as_str());
        s
    } else {
        u64_text(i as u64)
    }
}

/// Text of a boolean (`true` / `false`).
pub fn bool_str(b: bool) -> (s: &'static str)
    ensures
        s@ == bool_text(b),
{
    proof {
        reveal_strlit("true");
        reveal_strlit("false");
    }
    if b {
        "true"
    } else {
        "false"
    }
}

/// An owned copy of a string slice.
pub fn owned(s: &str) -> (r: String)
    ensures
        r@ == s@,
{
    String::from_str(s)
}

/// Concatenation of two texts.
pub fn cat(a: &str, b: &str) -> (r: String)
    ensures
        r@ == a@ + b@,
{
    let mut r = String::from_str(a);
    r.append(b);
    r
}

/// Concatenation of three texts.
pub fn cat3(a: &str, b: &str, c: &str) -> (r: String)
    ensures
        r@ == a@ + b@ + c@,
{
    let mut r = String::from_str(a);
    r.append(b);
    r.append(c);
    r
}

/// Concatenation of four texts.
pub fn cat4(a: &str, b: &str, c: &str, d: &str) -> (r: String)
    ensures
        r@ == a@ + b@ + c@ + d@,
{
    let mut r = String::from_str(a);
    r.append(b);
    r.append(c);
    r.append(d);
    r
}

/// A string that counts only when it is not empty.
pub fn keep_non_empty(v: Option<String>) -> (r: Option<String>)
    ensures
        opt_view(r) == non_empty(opt_view(v)),
{
    match v {
        Some(s) => if s.unicode_len() > 0 {
            Some(s)
        } else {
            None
        },
        None => None,
    }
}

/// Equality of two string slices.
pub fn str_eq(a: &str, b: &str) -> (r: bool)
    ensures
        r == (a@ == b@),
{
    let x = String::from_str(a);
    let y = String::from_str(b);
    x == y
}

/// The text of an optional string, or `default` when it is absent.
pub fn opt_str_or(o: &Option<String>, default: &str) -> (r: String)
    ensures
        r@ == opt_or(*o, default@),
{
    match o {
        Some(s) => s.clone(),
        None => String::from_str(default),
    }
}

/// Equality of an optional string with an optional string slice.
pub fn opt_eq(a: &Option<String>, b: Option<&str>) -> (r: bool)
    ensures
        r == match (a, b) {
            (Some(x), Some(y)) => x@ == y@,
            (None, None) => true,
            _ => false,
        },
{
    match (a, b) {
        (Some(x), Some(y)) => str_eq(x.as_str(), y),
        (None, None) => true,
        _ => false,
    }
}

/// ASCII lower-casing of one character.
pub fn ascii_lower_char(c: char) -> (r: char)
    ensures
        r == ascii_lower(c),
{
    if 'A' <= c && c <= 'Z' {
        let b: u8 = (c as u8) + 32;
        b as char
    } else {
        c
    }
}

/// ASCII case-insensitive comparison of two texts.
pub fn eq_ignore_ascii_case(a: &str, b: &str) -> (r: bool)
    ensures
        r == eq_ignore_ascii_case_spec(a@, b@),
{
    let n = a.unicode_len();
    let m = b.unicode_len();
    if n != m {
        return false;
    }
    let mut i: usize = 0;
    while i < n
        invariant
            n == a@.len(),
            m == b@.len(),
            n == m,
            i <= n,
            forall|j: int| 0 <= j < i ==> ascii_lower(#[trigger] a@[j]) == ascii_lower(b@[j]),
        decreases n - i,
    {
        let x = ascii_lower_char(a.get_char(i));
        let y = ascii_lower_char(b.get_char(i));
        if x != y {
            return false;
        }
        i = i + 1;
    }
    true
}

/// The first `n` characters of a text (all of it when it is shorter).
pub fn char_prefix(s: &str, n: usize) -> (r: String)
    ensures
        r@ == if s@.len() <= n { s@ } else { s@.subrange(0, n as int) },
{
    let len = s.unicode_len();
    if len <= n {
        String::from_str(s)
    } else {
        let p = s.substring_char(0, n);
        proof {
            assert(p@ == s@.subrange(0, n as int));
        }
        String::from_str(p)
    }
}

/// Texts joined with a separator between neighbours.
pub open spec fn join_spec(parts: Seq<Seq<char>>, sep: Seq<char>) -> Seq<char>
    decreases parts.len(),
{
    if parts.len() == 0 {
        Seq::empty()
    } else if parts.len() == 1 {
        parts[0]
    } else {
        join_spec(parts.drop_last(), sep) + sep + parts.last()
    }
}

/// Join texts with a separator between neighbours.
pub fn join(parts: &Vec<String>, sep: &str) -> (r: String)
    ensures
        r@ == join_spec(strs_view(parts@), sep@),
{
    let n = parts.len();
    let mut r = String::new();
    let mut i: usize = 0;
    while i < n
        invariant
            n == parts@.len(),
            i <= n,
            r@ == join_spec(strs_view(parts@.subrange(0, i as int)), sep@),
        decreases n - i,
    {
        let ghost prev = strs_view(parts@.subrange(0, i as int));
        let ghost next = strs_view(parts@.subrange(0, i + 1));
        proof {
            assert(next.drop_last() =~= prev);
            assert(next.last() == parts@[i as int]@);
        }
        if i > 0 {
            r.append(sep);
        }
        r.append(parts[i].as_str());
        proof {
            if i == 0 {
                assert(r@ =~= next[0]);
            } else {
                assert(r@ =~= join_spec(prev, sep@) + sep@ + next.last());
            }
        }
        i = i + 1;
    }
    proof {
        assert(parts@.subrange(0, n as int) =~= parts@);
    }
    r
}

/// The first `n` characters of a text (all of it when it is shorter).
pub open spec fn take_chars(s: Seq<char>, n: nat) -> Seq<char> {
    if s.len() <= n { s } else { s.subrange(0, n as int) }
}

/// Lexicographic order of texts by code point, as `str` orders them
/// (UTF-8 byte order and code point order agree).
pub open spec fn text_le(a: Seq<char>, b: Seq<char>) -> bool
    decreases a.len(),
{
    if a.len() == 0 {
        true
    } else if b.len() == 0 {
        false
    } else if a[0] != b[0] {
        (a[0] as int) < (b[0] as int)
    } else {
        text_le(a.drop_first(), b.drop_first())
    }
}

/// Any two texts are ordered one way or the other.
pub proof fn lemma_text_le_total(a: Seq<char>, b: Seq<char>)
    ensures
        text_le(a, b) || text_le(b, a),
    decreases a.len(),
{
    if a.len() > 0 && b.len() > 0 {
        if a[0] == b[0] {
            lemma_text_le_total(a.drop_first(), b.drop_first());
        } else {
            assert((a[0] as int) != (b[0] as int));
        }
    }
}

/// The order of texts is transitive.
pub proof fn lemma_text_le_trans(a: Seq<char>, b: Seq<char>, c: Seq<char>)
    requires
        text_le(a, b),
        text_le(b, c),
    ensures
        text_le(a, c),
    decreases a.len(),
{
    if a.len() > 0 && b.len() > 0 && c.len() > 0 {
        if a[0] == b[0] && b[0] == c[0] {
            lemma_text_le_trans(a.drop_first(), b.drop_first(), c.drop_first());
        }
    }
}

/// Texts ordered both ways are equal.
pub proof fn lemma_text_le_antisym(a: Seq<char>, b: Seq<char>)
    requires
        text_le(a, b),
        text_le(b, a),
    ensures
        a == b,
    decreases a.len(),
{
    if a.len() > 0 && b.len() > 0 {
        lemma_text_le_antisym(a.drop_first(), b.drop_first());
        assert(a =~= seq![a[0]] + a.drop_first());
        assert(b =~= seq![b[0]] + b.drop_first());
    } else {
        assert(a.len() == 0 && b.len() == 0);
        assert(a =~= b);
    }
}

/// Whether `a` comes before or equals `b` in `str` order.
pub fn text_le_exec(a: &str, b: &str) -> (r: bool)
    ensures
        r == text_le(a@, b@),
{
    let n = a.unicode_len();
    let m = b.unicode_len();
    let mut i: usize = 0;
    proof {
        assert(a@.skip(0) =~= a@);
        assert(b@.skip(0) =~= b@);
    }
    while i < n && i < m
        invariant
            n == a@.len(),
            m == b@.len(),
            i <= n,
            i <= m,
            text_le(a@, b@) == text_le(a@.skip(i as int), b@.skip(i as int)),
        decreases n - i,
    {
        let x = a.get_char(i);
        let y = b.get_char(i);
        proof {
            assert(a@.skip(i as int)[0] == x);
            assert(b@.skip(i as int)[0] == y);
        }
        if x != y {
            return x < y;
        }
        proof {
            assert(a@.skip(i as int).drop_first() =~= a@.skip(i + 1));
            assert(b@.skip(i as int).drop_first() =~= b@.skip(i + 1));
        }
        i = i + 1;
    }
    proof {
        if i == n {
            assert(a@.skip(i as int).len() == 0);
        } else {
            assert(b@.skip(i as int).len() == 0);
        }
    }
    i == n
}

/// The number of bytes UTF-8 takes for a character.
pub open spec fn utf8_len(c: char) -> int {
    if (c as int) < 0x80 {
        1
    } else if (c as int) < 0x800 {
        2
    } else if (c as int) < 0x10000 {
        3
    } else {
        4
    }
}

/// The number of bytes of a text in UTF-8.
pub open spec fn utf8_bytes(s: Seq<char>) -> int
    decreases s.len(),
{
    if s.len() == 0 {
        0
    } else {
        utf8_len(s[0]) + utf8_bytes(s.drop_first())
    }
}

/// How many characters the first `b` bytes of a text hold, when `b` falls
/// on a character boundary within the text (`None` otherwise: slicing
/// there panics).
pub open spec fn byte_prefix_len(s: Seq<char>, b: int) -> Option<nat>
    decreases s.len(),
{
    if b == 0 {
        Some(0)
    } else if b < 0 || s.len() == 0 {
        None
    } else {
        match byte_prefix_len(s.drop_first(), b - utf8_len(s[0])) {
            Some(k) => Some(k + 1),
            None => None,
        }
    }
}

/// The text of the first `b` bytes, as `&s[..b]` gives it.
pub open spec fn byte_prefix(s: Seq<char>, b: int) -> Seq<char> {
    s.take(byte_prefix_len(s, b)->0 as int)
}

/// UTF-8 length of one character.
fn utf8_len_exec(c: char) -> (r: usize)
    ensures
        r == utf8_len(c),
{
    if (c as u32) < 0x80 {
        1
    } else if (c as u32) < 0x800 {
        2
    } else if (c as u32) < 0x10000 {
        3
    } else {
        4
    }
}

/// The first `b` bytes of a text, as `&s[..b]` gives them.
pub fn byte_prefix_exec(s: &str, b: usize) -> (r: String)
    requires
        byte_prefix_len(s@, b as int) is Some,
    ensures
        r@ == byte_prefix(s@, b as int),
{
    let n = s.unicode_len();
    let mut i: usize = 0;
    let mut used: usize = 0;
    proof {
        assert(s@.skip(0) =~= s@);
    }
    while used < b
        invariant
            n == s@.len(),
            i <= n,
            used <= b,
            byte_prefix_len(s@.skip(i as int), b - used) is Some,
            byte_prefix_len(s@, b as int)->0 == byte_prefix_len(s@.skip(i as int), b - used)->0 + i,
        decreases b - used,
    {
        let ghost rest = s@.skip(i as int);
        proof {
            assert(rest.len() > 0);
            assert(rest.drop_first() =~= s@.skip(i + 1));
        }
        let c = s.get_char(i);
        proof {
            assert(rest[0] == c);
        }
        let w = utf8_len_exec(c);
        proof {
            assert(byte_prefix_len(rest.drop_first(), (b - used) - w) is Some);
            assert(w <= b - used);
        }
        used = used + w;
        i = i + 1;
    }
    proof {
        assert(byte_prefix_len(s@.skip(i as int), 0) == Some(0nat));
    }
    let p = s.substring_char(0, i);
    String::from_str(p)
}

/// Whether a text takes more than `b` bytes in UTF-8.
pub fn bytes_exceed(s: &str, b: usize) -> (r: bool)
    ensures
        r == (utf8_bytes(s@) > b),
{
    let n = s.unicode_len();
    let mut i: usize = 0;
    let mut used: usize = 0;
    proof {
        assert(s@.skip(0) =~= s@);
    }
    while i < n
        invariant
            n == s@.len(),
            i <= n,
            used <= b,
            utf8_bytes(s@) == used + utf8_bytes(s@.skip(i as int)),
        decreases n - i,
    {
        let ghost rest = s@.skip(i as int);
        proof {
            assert(rest.drop_first() =~= s@.skip(i + 1));
            assert(rest[0] == s@[i as int]);
        }
        let w = utf8_len_exec(s.get_char(i));
        if w > b - used {
            proof {
                lemma_utf8_bytes_nonneg(s@.skip(i + 1));
            }
            return true;
        }
        used = used + w;
        i = i + 1;
    }
    proof {
        assert(s@.skip(n as int).len() == 0);
    }
    false
}

/// A text takes no negative number of bytes.
proof fn lemma_utf8_bytes_nonneg(s: Seq<char>)
    ensures
        utf8_bytes(s) >= 0,
    decreases s.len(),
{
    if s.len() > 0 {
        lemma_utf8_bytes_nonneg(s.drop_first());
    }
}

/// Whether every character is an ASCII digit.
pub open spec fn all_digits(s: Seq<char>) -> bool {
    forall|i: int| 0 <= i < s.len() ==> '0' <= #[trigger] s[i] && s[i] <= '9'
}

/// The number a string of decimal digits denotes.
pub open spec fn digits_value(s: Seq<char>) -> nat
    decreases s.len(),
{
    if s.len() == 0 {
        0
    } else {
        digits_value(s.drop_last()) * 10 + ((s.last() as int) - ('0' as int)) as nat
    }
}

/// The unsigned number a text denotes, as `str::parse` reads it for an
/// unsigned integer type whose largest value is `max`: an optional `+`,
/// then one or more decimal digits, the value at most `max`; `None`
/// otherwise.
pub open spec fn parse_unsigned_spec(s: Seq<char>, max: nat) -> Option<nat> {
    let d = if s.len() > 0 && s[0] == '+' { s.drop_first() } else { s };
    if d.len() > 0 && all_digits(d) && digits_value(d) <= max {
        Some(digits_value(d))
    } else {
        None
    }
}

/// A longer string of digits denotes at least the value of its prefix.
proof fn lemma_digits_value_prefix(s: Seq<char>, k: int)
    requires
        0 <= k <= s.len(),
        all_digits(s),
    ensures
        digits_value(s.take(k)) <= digits_value(s),
    decreases s.len() - k,
{
    if k < s.len() {
        lemma_digits_value_prefix(s, k + 1);
        let t = s.take(k + 1);
        assert(t.drop_last() =~= s.take(k));
        assert(t.last() == s[k]);
        assert(digits_value(t) == digits_value(s.take(k)) * 10 + ((s[k] as int) - ('0' as int)) as nat);
    } else {
        assert(s.take(k) =~= s);
    }
}

/// Read an unsigned number no larger than `max`, as `str::parse` does.
fn parse_unsigned(s: &str, max: u64) -> (r: Option<u64>)
    requires
        max <= u32::MAX,
    ensures
        match r {
            Some(v) => parse_unsigned_spec(s@, max as nat) == Some(v as nat),
            None => parse_unsigned_spec(s@, max as nat) is None,
        },
{
    let n = s.unicode_len();
    let start: usize = if n > 0 && s.get_char(0) == '+' { 1 } else { 0 };
    let ghost d = if s@.len() > 0 && s@[0] == '+' { s@.drop_first() } else { s@ };
    proof {
        assert(d =~= s@.skip(start as int));
    }
    if start == n {
        return None;
    }
    let mut acc: u64 = 0;
    let mut i: usize = start;
    while i < n
        invariant
            n == s@.len(),
            start <= i <= n,
            d == s@.skip(start as int),
            d == (if s@.len() > 0 && s@[0] == '+' { s@.drop_first() } else { s@ }),
            max <= u32::MAX,
            acc <= max,
            all_digits(d.take(i - start)),
            acc == digits_value(d.take(i - start)),
        decreases n - i,
    {
        let c = s.get_char(i);
        let ghost t = d.take(i - start + 1);
        proof {
            assert(d[i - start] == c);
            assert(t.drop_last() =~= d.take(i - start));
            assert(t.last() == c);
        }
        if c < '0' || c > '9' {
            proof {
                assert(!('0' <= d[i - start] && d[i - start] <= '9'));
                assert(!all_digits(d));
                assert(parse_unsigned_spec(s@, max as nat) is None);
            }
            return None;
        }
        let digit: u64 = (c as u32 - '0' as u32) as u64;
        acc = acc * 10 + digit;
        proof {
            assert(all_digits(t));
        }
        if acc > max {
            proof {
                if all_digits(d) {
                    lemma_digits_value_prefix(d, i - start + 1);
                    assert(digits_value(d) > max);
                }
                assert(parse_unsigned_spec(s@, max as nat) is None);
            }
            return None;
        }
        i = i + 1;
    }
    proof {
        assert(d.take(n - start) =~= d);
    }
    Some(acc)
}

/// Read a `u32` as `str::parse::<u32>` does.
pub fn parse_u32(s: &str) -> (r: Option<u32>)
    ensures
        match r {
            Some(v) => parse_unsigned_spec(s@, u32::MAX as nat) == Some(v as nat),
            None => parse_unsigned_spec(s@, u32::MAX as nat) is None,
        },
{
    match parse_unsigned(s, u32::MAX as u64) {
        Some(v) => Some(v as u32),
        None => None,
    }
}

/// Read a `u16` as `str::parse::<u16>` does.
pub fn parse_u16(s: &str) -> (r: Option<u16>)
    ensures
        match r {
            Some(v) => parse_unsigned_spec(s@, u16::MAX as nat) == Some(v as nat),
            None => parse_unsigned_spec(s@, u16::MAX as nat) is None,
        },
{
    match parse_unsigned(s, u16::MAX as u64) {
        Some(v) => Some(v as u16),
        None => None,
    }
}

/// Name of what `str::to_uppercase` returns for a text.
pub uninterp spec fn uppercase_of(s: Seq<char>) -> Seq<char>;

/// Name of what `str::to_lowercase` returns for a text.
pub uninterp spec fn lowercase_of(s: Seq<char>) -> Seq<char>;

/// Calls `str::to_uppercase`; the contract only ties the result to the
/// argument through the name `uppercase_of` (Unicode case mapping is not
/// restated here).
#[verifier::external_body]
pub(crate) fn to_upper(s: &str) -> (r: String)
    ensures
        r@ == uppercase_of(s@),
{
    s.to_uppercase()
}

/// Calls `str::to_lowercase`; the contract only ties the result to the
/// argument through the name `lowercase_of` (Unicode case mapping is not
/// restated here).
#[verifier::external_body]
pub(crate) fn to_lower(s: &str) -> (r: String)
    ensures
        r@ == lowercase_of(s@),
{
    s.to_lowercase()
}

} // verus!
