//! Verified text helpers shared by the widgets: owned copies, comparisons,
//! prefix and suffix tests, character buffers and decimal rendering.
use vstd::prelude::*;

verus! {

/// `p` is a prefix of `s`.
pub open spec fn is_prefix(p: Seq<char>, s: Seq<char>) -> bool {
    p.len() <= s.len() && s.subrange(0, p.len() as int) == p
}

/// `p` is a suffix of `s`.
pub open spec fn is_suffix(p: Seq<char>, s: Seq<char>) -> bool {
    p.len() <= s.len() && s.subrange(s.len() - p.len(), s.len() as int) == p
}

/// `s` holds the character `c` somewhere.
pub open spec fn has_char(s: Seq<char>, c: char) -> bool {
    exists|i: int| 0 <= i < s.len() && s[i] == c
}

/// `n` occurs in `s` as a contiguous run starting at `i`.
pub open spec fn occurs_at(n: Seq<char>, s: Seq<char>, i: int) -> bool {
    0 <= i && i + n.len() <= s.len() && s.subrange(i, i + n.len()) == n
}

/// `n` occurs in `s` as a contiguous run.
pub open spec fn is_substring(n: Seq<char>, s: Seq<char>) -> bool {
    exists|i: int| occurs_at(n, s, i)
}

/// The decimal digit character for `d` (for `d < 10`).
pub open spec fn digit_char(d: nat) -> char {
    if d == 0 { '0' }
    else if d == 1 { '1' }
    else if d == 2 { '2' }
    else if d == 3 { '3' }
    else if d == 4 { '4' }
    else if d == 5 { '5' }
    else if d == 6 { '6' }
    else if d == 7 { '7' }
    else if d == 8 { '8' }
    else { '9' }
}

/// The decimal rendering of `n`, without leading zeros (`"0"` for zero).
pub open spec fn dec(n: nat) -> Seq<char>
    decreases n,
{
    if n < 10 {
        seq![digit_char(n)]
    } else {
        dec(n / 10).push(digit_char(n % 10))
    }
}

/// The decimal rendering of `n`, padded with zeros on the left to at least two digits.
pub open spec fn pad2(n: nat) -> Seq<char> {
    if n < 10 { seq!['0', digit_char(n)] } else { dec(n) }
}

/// An owned copy of `s`.
pub fn owned(s: &str) -> (r: String)
    ensures
        r@ == s@,
{
    String::from_str(s)
}

/// An owned copy of an optional string.
pub fn owned_opt(s: &Option<String>) -> (r: Option<String>)
    ensures
        opt_view(&r) == opt_view(s),
{
    match s {
        Some(t) => Some(t.clone()),
        None => None,
    }
}

/// The view of an optional string.
pub open spec fn opt_view(s: &Option<String>) -> Option<Seq<char>> {
    match s {
        Some(t) => Some(t@),
        None => None,
    }
}

/// Appends a character to a string.
///
/// Wraps `String::push`, which the standard library documents as appending
/// the given `char` to the end of the string; that is all the contract claims.
#[verifier::external_body]
pub(crate) fn push_char(s: &mut String, c: char)
    ensures
        final(s)@ == old(s)@.push(c),
{
    s.push(c);
}

/// Whether two strings hold the same characters.
pub fn str_eq(a: &str, b: &str) -> (r: bool)
    ensures
        r == (a@ == b@),
{
    let x = owned(a);
    let y = owned(b);
    x == y
}

/// The characters of `s`, one per element.
pub fn chars_of(s: &str) -> (v: Vec<char>)
    ensures
        v@ == s@,
{
    let mut v: Vec<char> = Vec::new();
    for c in it: s.chars()
        invariant
            v@ == it.seq().take(it.index() as int),
            it.seq() == s@,
    {
        assert(it.seq().take(it.index() + 1) == it.seq().take(it.index() as int).push(c));
        v.push(c);
    }
    v
}

/// A string holding the characters of `v[from..to]`.
pub fn string_from_chars(v: &Vec<char>, from: usize, to: usize) -> (r: String)
    requires
        from <= to <= v.len(),
    ensures
        r@ == v@.subrange(from as int, to as int),
{
    let mut r = String::new();
    let mut i = from;
    while i < to
        invariant
            from <= i <= to <= v.len(),
            r@ == v@.subrange(from as int, i as int),
        decreases to - i,
    {
        push_char(&mut r, v[i]);
        assert(v@.subrange(from as int, i + 1) == v@.subrange(from as int, i as int).push(v@[i as int]));
        i = i + 1;
    }
    r
}

/// Appends every character of `t` to `s`.
pub fn push_str(s: &mut String, t: &str)
    ensures
        final(s)@ == old(s)@ + t@,
{
    s.append(t);
}

/// Whether `s` starts with `p`.
pub fn starts_with(s: &str, p: &str) -> (r: bool)
    ensures
        r == is_prefix(p@, s@),
{
    let sv = chars_of(s);
    let pv = chars_of(p);
    if pv.len() > sv.len() {
        return false;
    }
    let mut i: usize = 0;
    while i < pv.len()
        invariant
            pv.len() <= sv.len(),
            i <= pv.len(),
            sv@ == s@,
            pv@ == p@,
            forall|j: int| 0 <= j < i ==> sv@[j] == pv@[j],
        decreases pv.len() - i,
    {
        if sv[i] != pv[i] {
            assert(s@.subrange(0, p@.len() as int)[i as int] != p@[i as int]);
            return false;
        }
        i = i + 1;
    }
    assert(s@.subrange(0, p@.len() as int) =~= p@);
    true
}

/// Whether `s` ends with `p`.
pub fn ends_with(s: &str, p: &str) -> (r: bool)
    ensures
        r == is_suffix(p@, s@),
{
    let sv = chars_of(s);
    let pv = chars_of(p);
    if pv.len() > sv.len() {
        return false;
    }
    let off = sv.len() - pv.len();
    let mut i: usize = 0;
    while i < pv.len()
        invariant
            pv.len() <= sv.len(),
            off == sv.len() - pv.len(),
            i <= pv.len(),
            sv@ == s@,
            pv@ == p@,
            forall|j: int| 0 <= j < i ==> sv@[off + j] == pv@[j],
        decreases pv.len() - i,
    {
        if sv[off + i] != pv[i] {
            assert(s@.subrange(off as int, s@.len() as int)[i as int] != p@[i as int]);
            return false;
        }
        i = i + 1;
    }
    assert(s@.subrange(off as int, s@.len() as int) =~= p@);
    true
}

/// Whether the character `c` occurs in `s`.
pub fn contains_char(s: &str, c: char) -> (r: bool)
    ensures
        r == has_char(s@, c),
{
    let sv = chars_of(s);
    let mut i: usize = 0;
    while i < sv.len()
        invariant
            i <= sv.len(),
            sv@ == s@,
            forall|j: int| 0 <= j < i ==> sv@[j] != c,
        decreases sv.len() - i,
    {
        if sv[i] == c {
            return true;
        }
        i = i + 1;
    }
    false
}

/// Whether `n` occurs in `h` as a contiguous run of characters.
pub fn contains_str(h: &str, n: &str) -> (r: bool)
    ensures
        r == is_substring(n@, h@),
{
    let hv = chars_of(h);
    let nv = chars_of(n);
    if nv.len() > hv.len() {
        assert forall|i: int| !occurs_at(n@, h@, i) by {}
        return false;
    }
    let last = hv.len() - nv.len();
    let mut i: usize = 0;
    while i <= last
        invariant
            nv.len() <= hv.len(),
            last == hv.len() - nv.len(),
            hv@ == h@,
            nv@ == n@,
            forall|k: int| 0 <= k < i ==> !occurs_at(n@, h@, k),
        decreases last + 1 - i,
    {
        let mut j: usize = 0;
        let mut same = true;
        while j < nv.len()
            invariant
                nv.len() <= hv.len(),
                i <= last,
                last == hv.len() - nv.len(),
                j <= nv.len(),
                hv@ == h@,
                nv@ == n@,
                same ==> forall|q: int| 0 <= q < j ==> hv@[i + q] == nv@[q],
                !same ==> !occurs_at(n@, h@, i as int),
            decreases nv.len() - j,
        {
            if hv[i + j] != nv[j] {
                if same {
                    assert(h@.subrange(i as int, i + n@.len())[j as int] != n@[j as int]);
                }
                same = false;
            }
            j = j + 1;
        }
        if same {
            assert(h@.subrange(i as int, i + n@.len()) =~= n@);
            assert(occurs_at(n@, h@, i as int));
            return true;
        }
        if i == last {
            assert forall|k: int| !occurs_at(n@, h@, k) by {
                if 0 <= k && k + n@.len() <= h@.len() {
                    assert(k <= last);
                }
            }
            return false;
        }
        i = i + 1;
    }
    false
}

/// The value of the decimal digit `d` as its character.
pub fn digit(d: u64) -> (c: char)
    requires
        d < 10,
    ensures
        c == digit_char(d as nat),
{
    if d == 0 { '0' }
    else if d == 1 { '1' }
    else if d == 2 { '2' }
    else if d == 3 { '3' }
    else if d == 4 { '4' }
    else if d == 5 { '5' }
    else if d == 6 { '6' }
    else if d == 7 { '7' }
    else if d == 8 { '8' }
    else { '9' }
}

/// Appends the decimal rendering of `n` to `s`.
pub fn push_decimal(s: &mut String, n: u64)
    ensures
        final(s)@ == old(s)@ + dec(n as nat),
    decreases n,
{
    if n < 10 {
        push_char(s, digit(n));
        assert(dec(n as nat) == seq![digit_char(n as nat)]);
    } else {
        push_decimal(s, n / 10);
        push_char(s, digit(n % 10));
        assert(dec(n as nat) == dec((n / 10) as nat).push(digit_char((n % 10) as nat)));
    }
}

/// Appends the decimal rendering of `n`, zero-padded to two digits, to `s`.
pub fn push_pad2(s: &mut String, n: u64)
    ensures
        final(s)@ == old(s)@ + pad2(n as nat),
{
    if n < 10 {
        push_char(s, '0');
        push_char(s, digit(n));
    } else {
        push_decimal(s, n);
    }
}

/// The decimal rendering of `n` as a new string.
pub fn decimal_string(n: u64) -> (r: String)
    ensures
        r@ == dec(n as nat),
{
    let mut s = String::new();
    push_decimal(&mut s, n);
    s
}

/// `s` with `t` inserted before position `k`.
pub open spec fn inserted(s: Seq<char>, k: int, t: Seq<char>) -> Seq<char> {
    s.take(k) + t + s.skip(k)
}

/// `s` without the character at position `k`.
pub open spec fn removed(s: Seq<char>, k: int) -> Seq<char> {
    s.take(k) + s.skip(k + 1)
}

/// `s` with the prefix `p` taken off when it has one.
pub open spec fn strip_prefix(s: Seq<char>, p: Seq<char>) -> Seq<char> {
    if is_prefix(p, s) { s.skip(p.len() as int) } else { s }
}

/// The number of characters of `s`.
pub fn char_count(s: &str) -> (r: usize)
    ensures
        r == s@.len(),
{
    let v = chars_of(s);
    v.len()
}

/// A new string: `s` with `t` inserted before character position `k`.
pub fn insert_at(s: &str, k: usize, t: &str) -> (r: String)
    requires
        k <= s@.len(),
    ensures
        r@ == inserted(s@, k as int, t@),
{
    let v = chars_of(s);
    let mut r = string_from_chars(&v, 0, k);
    push_str(&mut r, t);
    let tail = string_from_chars(&v, k, v.len());
    push_str(&mut r, tail.as_str());
    assert(r@ =~= inserted(s@, k as int, t@));
    r
}

/// A new string: `s` without the character at position `k`.
pub fn remove_at(s: &str, k: usize) -> (r: String)
    requires
        k < s@.len(),
    ensures
        r@ == removed(s@, k as int),
{
    let v = chars_of(s);
    let n = v.len();
    assert(k < n);
    let mut r = string_from_chars(&v, 0, k);
    let tail = string_from_chars(&v, k + 1, n);
    push_str(&mut r, tail.as_str());
    assert(r@ =~= removed(s@, k as int));
    r
}

/// A new string: the characters of `s` from position `k` on.
pub fn skip_chars(s: &str, k: usize) -> (r: String)
    requires
        k <= s@.len(),
    ensures
        r@ == s@.skip(k as int),
{
    let v = chars_of(s);
    let r = string_from_chars(&v, k, v.len());
    assert(r@ =~= s@.skip(k as int));
    r
}

/// A new string: the first `k` characters of `s`.
pub fn take_chars(s: &str, k: usize) -> (r: String)
    requires
        k <= s@.len(),
    ensures
        r@ == s@.take(k as int),
{
    let v = chars_of(s);
    let r = string_from_chars(&v, 0, k);
    assert(r@ =~= s@.take(k as int));
    r
}

/// A new string: `s` without the prefix `p` if it has it, else `s`.
pub fn strip_prefix_str(s: &str, p: &str) -> (r: String)
    ensures
        r@ == strip_prefix(s@, p@),
{
    if starts_with(s, p) {
        let n = char_count(p);
        skip_chars(s, n)
    } else {
        owned(s)
    }
}

/// A new string holding `a` followed by `b`.
pub fn concat_str(a: &str, b: &str) -> (r: String)
    ensures
        r@ == a@ + b@,
{
    let mut r = owned(a);
    push_str(&mut r, b);
    r
}

/// Characters with the Unicode `White_Space` property.
pub open spec fn white_space(c: char) -> bool {
    let u = c as u32;
    ||| 0x09 <= u <= 0x0D
    ||| u == 0x20
    ||| u == 0x85
    ||| u == 0xA0
    ||| u == 0x1680
    ||| 0x2000 <= u <= 0x200A
    ||| u == 0x2028
    ||| u == 0x2029
    ||| u == 0x202F
    ||| u == 0x205F
    ||| u == 0x3000
}

/// Whether `c` has the Unicode `White_Space` property (as `char::is_whitespace`).
pub fn is_white_space(c: char) -> (r: bool)
    ensures
        r == white_space(c),
{
    let u = c as u32;
    (0x09 <= u && u <= 0x0D) || u == 0x20 || u == 0x85 || u == 0xA0 || u == 0x1680
        || (0x2000 <= u && u <= 0x200A) || u == 0x2028 || u == 0x2029 || u == 0x202F
        || u == 0x205F || u == 0x3000
}

/// Control characters (general category `Cc`).
pub open spec fn control(c: char) -> bool {
    let u = c as u32;
    u <= 0x1F || (0x7F <= u <= 0x9F)
}

/// Whether `c` is a control character (as `char::is_control`).
pub fn is_control(c: char) -> (r: bool)
    ensures
        r == control(c),
{
    let u = c as u32;
    u <= 0x1F || (0x7F <= u && u <= 0x9F)
}

/// The first position at or after `i` that does not hold white space.
pub open spec fn skip_ws(s: Seq<char>, i: int) -> int
    decreases s.len() - i,
{
    if 0 <= i < s.len() && white_space(s[i]) { skip_ws(s, i + 1) } else { i }
}

/// The end of `s[lo..j]` once trailing white space is dropped.
pub open spec fn back_ws(s: Seq<char>, lo: int, j: int) -> int
    decreases j - lo,
{
    if lo < j && j <= s.len() && white_space(s[j - 1]) { back_ws(s, lo, j - 1) } else { j }
}

/// `s` without leading and trailing white space (as `str::trim`).
pub open spec fn trimmed(s: Seq<char>) -> Seq<char> {
    let a = skip_ws(s, 0);
    s.subrange(a, back_ws(s, a, s.len() as int))
}

/// A new string: `s` without leading and trailing white space.
pub fn trim(s: &str) -> (r: String)
    ensures
        r@ == trimmed(s@),
{
    let v = chars_of(s);
    let n = v.len();
    let mut a: usize = 0;
    while a < n && is_white_space(v[a])
        invariant
            a <= n,
            n == s@.len(),
            v@ == s@,
            skip_ws(s@, a as int) == skip_ws(s@, 0),
        decreases n - a,
    {
        a = a + 1;
    }
    let mut b: usize = n;
    while b > a && is_white_space(v[b - 1])
        invariant
            a <= b <= n,
            n == s@.len(),
            v@ == s@,
            skip_ws(s@, 0) == a,
            back_ws(s@, a as int, b as int) == back_ws(s@, a as int, n as int),
        decreases b - a,
    {
        b = b - 1;
    }
    string_from_chars(&v, a, b)
}

/// `s` with every space replaced by `c`.
pub open spec fn spaces_replaced(s: Seq<char>, c: char) -> Seq<char> {
    s.map_values(|x: char| if x == ' ' { c } else { x })
}

/// A new string: `s` with every space replaced by `c`.
pub fn replace_spaces(s: &str, c: char) -> (r: String)
    ensures
        r@ == spaces_replaced(s@, c),
{
    let v = chars_of(s);
    let mut r = String::new();
    let mut i: usize = 0;
    while i < v.len()
        invariant
            i <= v.len(),
            v@ == s@,
            r@ == spaces_replaced(s@.take(i as int), c),
        decreases v.len() - i,
    {
        let x = v[i];
        push_char(&mut r, if x == ' ' { c } else { x });
        assert(spaces_replaced(s@.take(i + 1), c) =~= spaces_replaced(s@.take(i as int), c).push(if x == ' ' { c } else { x }));
        i = i + 1;
    }
    assert(s@.take(v.len() as int) =~= s@);
    r
}

/// The part of `s` after its last `c` (all of `s` when it has none).
pub open spec fn after_last(s: Seq<char>, c: char) -> Seq<char>
    decreases s.len(),
{
    if s.len() == 0 {
        s
    } else if s.last() == c {
        Seq::empty()
    } else {
        after_last(s.drop_last(), c).push(s.last())
    }
}

/// A new string: the part of `s` after its last `c` (see `after_last`).
pub fn after_last_char(s: &str, c: char) -> (r: String)
    ensures
        r@ == after_last(s@, c),
{
    let v = chars_of(s);
    let mut r = String::new();
    let mut i: usize = 0;
    while i < v.len()
        invariant
            i <= v.len(),
            v@ == s@,
            r@ == after_last(s@.take(i as int), c),
        decreases v.len() - i,
    {
        assert(s@.take(i + 1).drop_last() =~= s@.take(i as int));
        assert(s@.take(i + 1).last() == v@[i as int]);
        if v[i] == c {
            r = String::new();
        } else {
            push_char(&mut r, v[i]);
        }
        i = i + 1;
    }
    assert(s@.take(v.len() as int) =~= s@);
    r
}

/// The Unicode lowercase mapping of a string, as `str::to_lowercase` computes it.
pub uninterp spec fn lowercase(s: Seq<char>) -> Seq<char>;

/// The Unicode uppercase mapping of a string, as `str::to_uppercase` computes it.
pub uninterp spec fn uppercase(s: Seq<char>) -> Seq<char>;

/// Lowercases a string.
///
/// Wraps `str::to_lowercase`. Its result is a function of the string alone
/// (the Unicode case tables of the standard library); the contract names it
/// `lowercase` and says nothing more of it.
#[verifier::external_body]
pub(crate) fn to_lowercase(s: &str) -> (r: String)
    ensures
        r@ == lowercase(s@),
{
    s.to_lowercase()
}

/// Uppercases a string.
///
/// Wraps `str::to_uppercase`. Its result is a function of the string alone
/// (the Unicode case tables of the standard library); the contract names it
/// `uppercase` and says nothing more of it.
#[verifier::external_body]
pub(crate) fn to_uppercase(s: &str) -> (r: String)
    ensures
        r@ == uppercase(s@),
{
    s.to_uppercase()
}

/// `s` shortened to at most `max` characters: when longer, its first
/// `max - 1` characters followed by an ellipsis.
pub open spec fn truncated(s: Seq<char>, max: nat) -> Seq<char> {
    if s.len() > max { s.take(max - 1).push('…') } else { s }
}

/// A new string: `s` shortened to at most `max` characters (see `truncated`).
pub fn truncate_with_ellipsis(s: &str, max: usize) -> (r: String)
    requires
        max >= 1 || s@.len() == 0,
    ensures
        r@ == truncated(s@, max as nat),
        r@.len() <= max || s@.len() <= max,
{
    let n = char_count(s);
    if n > max {
        let mut t = take_chars(s, max - 1);
        push_char(&mut t, '…');
        t
    } else {
        owned(s)
    }
}

/// `s` without its control characters.
pub open spec fn printable(s: Seq<char>) -> Seq<char> {
    s.filter(|c: char| !control(c))
}

/// A new string: `s` without its control characters.
pub fn strip_control(s: &str) -> (r: String)
    ensures
        r@ == printable(s@),
{
    let v = chars_of(s);
    let mut r = String::new();
    let ghost pred = |c: char| !control(c);
    let mut i: usize = 0;
    while i < v.len()
        invariant
            i <= v.len(),
            v@ == s@,
            pred == (|c: char| !control(c)),
            r@ == s@.take(i as int).filter(pred),
        decreases v.len() - i,
    {
        proof {
            reveal_with_fuel(Seq::filter, 1);
            assert(s@.take(i + 1).drop_last() =~= s@.take(i as int));
            assert(s@.take(i + 1).last() == v@[i as int]);
        }
        let c = v[i];
        if !is_control(c) {
            push_char(&mut r, c);
        }
        i = i + 1;
    }
    assert(s@.take(v.len() as int) =~= s@);
    r
}

/// The lowercase hexadecimal digit for `d` (for `d < 16`).
pub open spec fn hex_digit_char(d: nat) -> char {
    if d < 10 { digit_char(d) }
    else if d == 10 { 'a' }
    else if d == 11 { 'b' }
    else if d == 12 { 'c' }
    else if d == 13 { 'd' }
    else if d == 14 { 'e' }
    else { 'f' }
}

/// The lowercase hexadecimal rendering of `n`, without leading zeros.
pub open spec fn hex(n: nat) -> Seq<char>
    decreases n,
{
    if n < 16 { seq![hex_digit_char(n)] } else { hex(n / 16).push(hex_digit_char(n % 16)) }
}

/// The hexadecimal digit character for `d`.
pub fn hex_digit(d: u128) -> (c: char)
    requires
        d < 16,
    ensures
        c == hex_digit_char(d as nat),
{
    if d < 10 { digit(d as u64) }
    else if d == 10 { 'a' }
    else if d == 11 { 'b' }
    else if d == 12 { 'c' }
    else if d == 13 { 'd' }
    else if d == 14 { 'e' }
    else { 'f' }
}

/// Appends the lowercase hexadecimal rendering of `n` to `s`.
pub fn push_hex(s: &mut String, n: u128)
    ensures
        final(s)@ == old(s)@ + hex(n as nat),
    decreases n,
{
    if n < 16 {
        push_char(s, hex_digit(n));
    } else {
        push_hex(s, n / 16);
        push_char(s, hex_digit(n % 16));
    }
}

} // verus!
