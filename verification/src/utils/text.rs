//! Character-level text operations with exact specifications: trimming
//! white space, splitting on a separator, comparing and joining strings.

use vstd::prelude::*;
use vstd::string::*;
use vstd::utf8::{encode_utf8, is_ascii_chars, is_ascii_chars_encode_utf8};

verus! {

/// Characters with the Unicode `White_Space` property, the ones that
/// `str::trim` removes.
pub open spec fn is_white_space(c: char) -> bool {
    ||| ('\u{9}' <= c && c <= '\u{d}')
    ||| c == ' '
    ||| c == '\u{85}'
    ||| c == '\u{a0}'
    ||| c == '\u{1680}'
    ||| ('\u{2000}' <= c && c <= '\u{200a}')
    ||| c == '\u{2028}'
    ||| c == '\u{2029}'
    ||| c == '\u{202f}'
    ||| c == '\u{205f}'
    ||| c == '\u{3000}'
}

/// `s` without its leading white space.
pub open spec fn trim_start(s: Seq<char>) -> Seq<char>
    decreases s.len(),
{
    if s.len() > 0 && is_white_space(s[0]) {
        trim_start(s.drop_first())
    } else {
        s
    }
}

/// `s` without its trailing white space.
pub open spec fn trim_end(s: Seq<char>) -> Seq<char>
    decreases s.len(),
{
    if s.len() > 0 && is_white_space(s.last()) {
        trim_end(s.drop_last())
    } else {
        s
    }
}

/// `s` without its leading and trailing white space.
pub open spec fn trimmed(s: Seq<char>) -> Seq<char> {
    trim_end(trim_start(s))
}

/// The pieces of `s` between occurrences of `sep`, in order: one more piece
/// than there are separators, empty pieces included (the pieces that
/// `str::split` yields for a `char` pattern).
pub open spec fn split_on(s: Seq<char>, sep: char) -> Seq<Seq<char>>
    decreases s.len(),
{
    if s.len() == 0 {
        seq![Seq::<char>::empty()]
    } else {
        let rest = split_on(s.drop_first(), sep);
        if s[0] == sep {
            seq![Seq::<char>::empty()] + rest
        } else {
            prepend_to_first(seq![s[0]], rest)
        }
    }
}

/// `pieces` with `prefix` put in front of its first piece.
pub open spec fn prepend_to_first(prefix: Seq<char>, pieces: Seq<Seq<char>>) -> Seq<Seq<char>> {
    seq![prefix + pieces[0]] + pieces.drop_first()
}

/// The character sequences of a list of string slices.
pub open spec fn str_views(parts: Seq<&str>) -> Seq<Seq<char>> {
    parts.map_values(|p: &str| p@)
}

/// Whether `c` is a white-space character.
pub fn is_white_space_char(c: char) -> (b: bool)
    ensures
        b == is_white_space(c),
{
    ('\u{9}' <= c && c <= '\u{d}') || c == ' ' || c == '\u{85}' || c == '\u{a0}' || c == '\u{1680}'
        || ('\u{2000}' <= c && c <= '\u{200a}') || c == '\u{2028}' || c == '\u{2029}' || c == '\u{202f}'
        || c == '\u{205f}' || c == '\u{3000}'
}

proof fn lemma_split_nonempty(s: Seq<char>, sep: char)
    ensures
        split_on(s, sep).len() >= 1,
    decreases s.len(),
{
    if s.len() > 0 {
        lemma_split_nonempty(s.drop_first(), sep);
    }
}

/// Law: a sequence without the separator is a single piece.
pub proof fn lemma_split_without_separator(s: Seq<char>, sep: char)
    requires
        !s.contains(sep),
    ensures
        split_on(s, sep) == seq![s],
    decreases s.len(),
{
    if s.len() > 0 {
        assert(!s.drop_first().contains(sep)) by {
            if s.drop_first().contains(sep) {
                let k = choose|k: int| 0 <= k < s.drop_first().len() && s.drop_first()[k] == sep;
                assert(s[k + 1] == sep);
            }
        }
        lemma_split_without_separator(s.drop_first(), sep);
        assert(s[0] != sep) by {
            if s[0] == sep {
                assert(s.contains(sep));
            }
        }
        assert(seq![s[0]] + s.drop_first() =~= s);
        assert(prepend_to_first(seq![s[0]], seq![s.drop_first()]) =~= seq![s]);
    } else {
        assert(s =~= Seq::<char>::empty());
    }
}

/// Law: splitting `a`, the separator, then `b`, where `a` holds no
/// separator, gives `a` followed by the pieces of `b`.
pub proof fn lemma_split_after_piece(a: Seq<char>, b: Seq<char>, sep: char)
    requires
        !a.contains(sep),
    ensures
        split_on(a + seq![sep] + b, sep) == seq![a] + split_on(b, sep),
    decreases a.len(),
{
    let s = a + seq![sep] + b;
    if a.len() == 0 {
        assert(s.drop_first() =~= b);
        assert(a =~= Seq::<char>::empty());
    } else {
        let a1 = a.drop_first();
        assert(!a1.contains(sep)) by {
            if a1.contains(sep) {
                let k = choose|k: int| 0 <= k < a1.len() && a1[k] == sep;
                assert(a[k + 1] == sep);
            }
        }
        assert(a[0] != sep) by {
            if a[0] == sep {
                assert(a.contains(sep));
            }
        }
        lemma_split_after_piece(a1, b, sep);
        assert(s.drop_first() =~= a1 + seq![sep] + b);
        assert(s[0] == a[0]);
        assert(seq![a[0]] + a1 =~= a);
        assert(prepend_to_first(seq![a[0]], seq![a1] + split_on(b, sep)) =~= seq![a] + split_on(b, sep));
    }
}

/// Splitting step: the pieces of `s` from position `i` on, by whether the
/// character at `i` is the separator.
proof fn lemma_split_step(s: Seq<char>, sep: char, i: int)
    requires
        0 <= i < s.len(),
    ensures
        s[i] == sep ==> split_on(s.skip(i), sep) == seq![Seq::<char>::empty()] + split_on(s.skip(i + 1), sep),
        s[i] != sep ==> split_on(s.skip(i), sep) == prepend_to_first(seq![s[i]], split_on(s.skip(i + 1), sep)),
{
    assert(s.skip(i).drop_first() =~= s.skip(i + 1));
}

/// Splits `s` at each occurrence of `sep`.
pub fn split_str<'a>(s: &'a str, sep: char) -> (parts: Vec<&'a str>)
    ensures
        str_views(parts@) == split_on(s@, sep),
{
    let n = s.unicode_len();
    let mut parts: Vec<&'a str> = Vec::new();
    let mut start: usize = 0;
    let mut i: usize = 0;
    assert(s@.skip(0) =~= s@);
    assert(prepend_to_first(Seq::<char>::empty(), split_on(s@, sep)) =~= split_on(s@, sep)) by {
        lemma_split_nonempty(s@, sep);
    }
    while i < n
        invariant
            n == s@.len(),
            start <= i <= n,
            split_on(s@, sep) == str_views(parts@) + prepend_to_first(
                s@.subrange(start as int, i as int),
                split_on(s@.skip(i as int), sep),
            ),
        decreases n - i,
    {
        let c = s.get_char(i);
        proof {
            lemma_split_step(s@, sep, i as int);
            lemma_split_nonempty(s@.skip(i as int + 1), sep);
        }
        if c == sep {
            let piece = s.substring_char(start, i);
            let ghost old_parts = parts@;
            parts.push(piece);
            proof {
                let rest = split_on(s@.skip(i as int + 1), sep);
                assert(str_views(parts@) =~= str_views(old_parts) + seq![piece@]);
                assert(prepend_to_first(s@.subrange(start as int, i as int), seq![Seq::<char>::empty()] + rest)
                    =~= seq![piece@] + rest);
                assert(s@.subrange(i as int + 1, i as int + 1) =~= Seq::<char>::empty());
                assert(prepend_to_first(Seq::<char>::empty(), rest) =~= rest);
            }
            start = i + 1;
        } else {
            proof {
                let rest = split_on(s@.skip(i as int + 1), sep);
                assert(s@.subrange(start as int, i as int + 1) =~= s@.subrange(start as int, i as int) + seq![c]);
                let p = s@.subrange(start as int, i as int);
                assert(p + (seq![c] + rest[0]) =~= s@.subrange(start as int, i as int + 1) + rest[0]);
                assert(prepend_to_first(p, prepend_to_first(seq![c], rest))
                    =~= prepend_to_first(s@.subrange(start as int, i as int + 1), rest));
            }
        }
        i = i + 1;
    }
    let last = s.substring_char(start, n);
    let ghost old_parts = parts@;
    parts.push(last);
    proof {
        assert(s@.skip(n as int) =~= Seq::<char>::empty());
        assert(str_views(parts@) =~= str_views(old_parts) + seq![last@]);
        assert(prepend_to_first(last@, seq![Seq::<char>::empty()]) =~= seq![last@]);
    }
    parts
}

/// `s` without its leading and trailing white space.
pub fn trim_str<'a>(s: &'a str) -> (t: &'a str)
    ensures
        t@ == trimmed(s@),
{
    let n = s.unicode_len();
    let mut start: usize = 0;
    assert(s@.skip(0) =~= s@);
    while start < n
        invariant
            n == s@.len(),
            start <= n,
            trim_start(s@) == trim_start(s@.skip(start as int)),
        ensures
            start <= n,
            trim_start(s@) == trim_start(s@.skip(start as int)),
            start < n ==> !is_white_space(s@[start as int]),
        decreases n - start,
    {
        if !is_white_space_char(s.get_char(start)) {
            break;
        }
        assert(s@.skip(start as int).drop_first() =~= s@.skip(start as int + 1));
        start = start + 1;
    }
    assert(trim_start(s@) =~= s@.subrange(start as int, n as int)) by {
        assert(s@.skip(start as int) =~= s@.subrange(start as int, n as int));
    }
    let mut end: usize = n;
    while end > start
        invariant
            n == s@.len(),
            start <= end <= n,
            trim_end(s@.subrange(start as int, n as int)) == trim_end(s@.subrange(start as int, end as int)),
        ensures
            start <= end <= n,
            trim_end(s@.subrange(start as int, n as int)) == trim_end(s@.subrange(start as int, end as int)),
            end > start ==> !is_white_space(s@[end - 1]),
        decreases end - start,
    {
        if !is_white_space_char(s.get_char(end - 1)) {
            break;
        }
        assert(s@.subrange(start as int, end as int).drop_last() =~= s@.subrange(start as int, end - 1));
        end = end - 1;
    }
    s.substring_char(start, end)
}

/// Law: a sequence that neither starts nor ends with white space is its own
/// trimmed form.
pub proof fn lemma_trimmed_unchanged(s: Seq<char>)
    requires
        s.len() > 0 ==> !is_white_space(s[0]) && !is_white_space(s.last()),
    ensures
        trimmed(s) == s,
{
}

/// Whether two strings hold the same characters.
pub fn str_equal(a: &str, b: &str) -> (r: bool)
    ensures
        r == (a@ == b@),
{
    let ab = a.as_bytes();
    let bb = b.as_bytes();
    if ab.len() != bb.len() {
        return false;
    }
    let n = ab.len();
    let mut i: usize = 0;
    while i < n
        invariant
            n == ab@.len(),
            n == bb@.len(),
            ab@ == a.spec_bytes(),
            bb@ == b.spec_bytes(),
            0 <= i <= n,
            forall|k: int| 0 <= k < i ==> ab@[k] == bb@[k],
        decreases n - i,
    {
        if ab[i] != bb[i] {
            return false;
        }
        i = i + 1;
    }
    proof {
        assert(ab@ =~= bb@);
        vstd::utf8::encode_utf8_decode_utf8(a@);
        vstd::utf8::encode_utf8_decode_utf8(b@);
    }
    true
}

/// The characters of an optional string.
pub open spec fn option_string_view(o: Option<String>) -> Option<Seq<char>> {
    match o {
        Some(s) => Some(s@),
        None => None,
    }
}

/// The characters of an optional string slice.
pub open spec fn option_str_view(o: Option<&str>) -> Option<Seq<char>> {
    match o {
        Some(s) => Some(s@),
        None => None,
    }
}

/// A copy of an optional string.
pub fn option_string_copy(o: &Option<String>) -> (r: Option<String>)
    ensures
        r == *o,
        option_string_view(r) == option_string_view(*o),
{
    match o {
        Some(s) => Some(s.clone()),
        None => None,
    }
}

/// An owned copy of an optional string slice.
pub fn option_str_to_string(o: Option<&str>) -> (r: Option<String>)
    ensures
        option_string_view(r) == option_str_view(o),
{
    match o {
        Some(s) => Some(s.to_owned()),
        None => None,
    }
}

/// The strings of a list, as a set of character sequences.
pub open spec fn string_set(v: Seq<String>) -> Set<Seq<char>> {
    Set::new(|x: Seq<char>| exists|i: int| 0 <= i < v.len() && v[i]@ == x)
}

/// No two strings of the list are equal.
pub open spec fn distinct_strings(v: Seq<String>) -> bool {
    forall|i: int, j: int| 0 <= i < v.len() && 0 <= j < v.len() && i != j ==> v[i]@ != v[j]@
}

/// Whether the list holds a string equal to `x`.
pub fn contains_str(v: &Vec<String>, x: &str) -> (r: bool)
    ensures
        r == string_set(v@).contains(x@),
{
    let mut i: usize = 0;
    while i < v.len()
        invariant
            0 <= i <= v@.len(),
            forall|k: int| 0 <= k < i ==> v@[k]@ != x@,
        decreases v@.len() - i,
    {
        if str_equal(v[i].as_str(), x) {
            assert(string_set(v@).contains(x@));
            return true;
        }
        i = i + 1;
    }
    false
}

/// Adds `x` to the list unless an equal string is already there.
pub fn push_unique(v: &mut Vec<String>, x: String)
    requires
        distinct_strings(old(v)@),
    ensures
        distinct_strings(final(v)@),
        string_set(final(v)@) == string_set(old(v)@).insert(x@),
        forall|i: int| 0 <= i < old(v)@.len() ==> final(v)@[i] == old(v)@[i],
        final(v)@.len() <= old(v)@.len() + 1,
{
    if !contains_str(v, x.as_str()) {
        let ghost before = v@;
        v.push(x);
        proof {
            assert forall|y: Seq<char>| #[trigger] string_set(v@).contains(y) == string_set(before).insert(x@).contains(y) by {
                if string_set(before).contains(y) {
                    let j = choose|j: int| 0 <= j < before.len() && before[j]@ == y;
                    assert(v@[j]@ == y);
                }
                if y == x@ {
                    assert(v@[before.len() as int]@ == y);
                }
                if string_set(v@).contains(y) && y != x@ {
                    let j = choose|j: int| 0 <= j < v@.len() && v@[j]@ == y;
                    assert(j < before.len());
                }
            }
            assert(string_set(v@) =~= string_set(before).insert(x@));
        }
    } else {
        assert(string_set(v@) =~= string_set(v@).insert(x@));
    }
}

/// A new string holding `a`, then `sep`, then `b`.
pub fn join_with(a: &str, sep: &str, b: &str) -> (r: String)
    ensures
        r@ == a@ + sep@ + b@,
{
    let mut r = a.to_owned();
    r.append(sep);
    r.append(b);
    r
}

/// The character of a decimal digit.
pub open spec fn digit_char(d: nat) -> char {
    if d == 0 {
        '0'
    } else if d == 1 {
        '1'
    } else if d == 2 {
        '2'
    } else if d == 3 {
        '3'
    } else if d == 4 {
        '4'
    } else if d == 5 {
        '5'
    } else if d == 6 {
        '6'
    } else if d == 7 {
        '7'
    } else if d == 8 {
        '8'
    } else {
        '9'
    }
}

/// The decimal notation of `n`, without leading zeros.
pub open spec fn decimal(n: nat) -> Seq<char>
    decreases n,
{
    if n < 10 {
        seq![digit_char(n)]
    } else {
        decimal(n / 10) + seq![digit_char(n % 10)]
    }
}

/// The byte of a decimal digit.
pub open spec fn digit_byte(d: nat) -> u8 {
    if d == 0 {
        48u8
    } else if d == 1 {
        49u8
    } else if d == 2 {
        50u8
    } else if d == 3 {
        51u8
    } else if d == 4 {
        52u8
    } else if d == 5 {
        53u8
    } else if d == 6 {
        54u8
    } else if d == 7 {
        55u8
    } else if d == 8 {
        56u8
    } else {
        57u8
    }
}

/// The bytes of the decimal notation of `n`.
pub open spec fn decimal_bytes(n: nat) -> Seq<u8>
    decreases n,
{
    if n < 10 {
        seq![digit_byte(n)]
    } else {
        decimal_bytes(n / 10) + seq![digit_byte(n % 10)]
    }
}

/// The UTF-8 bytes of a decimal notation are its digit bytes.
pub proof fn lemma_decimal_utf8(n: nat)
    ensures
        encode_utf8(decimal(n)) == decimal_bytes(n),
        decimal(n).len() == decimal_bytes(n).len(),
    decreases n,
{
    let d = decimal(n);
    assert(is_ascii_chars(d)) by {
        lemma_decimal_ascii(n);
    }
    is_ascii_chars_encode_utf8(d);
    if n >= 10 {
        lemma_decimal_utf8(n / 10);
        assert(decimal(n / 10).len() == decimal_bytes(n / 10).len());
        lemma_decimal_ascii(n / 10);
        is_ascii_chars_encode_utf8(decimal(n / 10));
        assert forall|i: int| 0 <= i < d.len() implies #[trigger] encode_utf8(d)[i] == decimal_bytes(n)[i] by {
            if i < d.len() - 1 {
                assert(d[i] == decimal(n / 10)[i]);
                assert(encode_utf8(decimal(n / 10))[i] == decimal(n / 10)[i] as u8);
            } else {
                assert(d[i] == digit_char(n % 10));
            }
        }
    }
    assert(encode_utf8(d) =~= decimal_bytes(n));
}

/// The byte of digit `d` is `'0'` plus `d`.
pub proof fn lemma_digit_byte_value(d: nat)
    requires
        d < 10,
    ensures
        digit_byte(d) == 48 + d,
{
}

/// The number of decimal digits of `n`.
pub open spec fn digit_count(n: nat) -> nat
    decreases n,
{
    if n < 10 {
        1
    } else {
        1 + digit_count(n / 10)
    }
}

/// Exactly the numbers below ten have one digit.
pub proof fn lemma_single_digit(n: nat)
    ensures
        (digit_count(n) == 1) == (n < 10),
{
    if n >= 10 {
        assert(digit_count(n / 10) >= 1);
    }
}

/// The digit bytes of `n` are as many as its digits.
pub proof fn lemma_decimal_bytes_len(n: nat)
    ensures
        decimal_bytes(n).len() == digit_count(n),
    decreases n,
{
    if n >= 10 {
        lemma_decimal_bytes_len(n / 10);
    }
}

/// A number has no more digits than any number at least as large.
pub proof fn lemma_digit_count_monotonic(m: nat, n: nat)
    requires
        m <= n,
    ensures
        digit_count(m) <= digit_count(n),
    decreases n,
{
    if m >= 10 {
        lemma_digit_count_monotonic(m / 10, n / 10);
    }
}

proof fn lemma_decimal_ascii(n: nat)
    ensures
        is_ascii_chars(decimal(n)),
    decreases n,
{
    if n >= 10 {
        lemma_decimal_ascii(n / 10);
    }
}

fn digit_str(d: u64) -> (s: &'static str)
    requires
        d < 10,
    ensures
        s@ == seq![digit_char(d as nat)],
{
    proof {
        reveal_strlit("0");
        reveal_strlit("1");
        reveal_strlit("2");
        reveal_strlit("3");
        reveal_strlit("4");
        reveal_strlit("5");
        reveal_strlit("6");
        reveal_strlit("7");
        reveal_strlit("8");
        reveal_strlit("9");
    }
    let s = if d == 0 {
        "0"
    } else if d == 1 {
        "1"
    } else if d == 2 {
        "2"
    } else if d == 3 {
        "3"
    } else if d == 4 {
        "4"
    } else if d == 5 {
        "5"
    } else if d == 6 {
        "6"
    } else if d == 7 {
        "7"
    } else if d == 8 {
        "8"
    } else {
        "9"
    };
    assert(s@ =~= seq![digit_char(d as nat)]);
    s
}

/// The decimal notation of `n` (what `n.to_string()` gives).
pub fn decimal_string(n: u64) -> (s: String)
    ensures
        s@ == decimal(n as nat),
    decreases n,
{
    if n < 10 {
        digit_str(n).to_owned()
    } else {
        let mut s = decimal_string(n / 10);
        s.append(digit_str(n % 10));
        s
    }
}

/// The pieces joined into one sequence, with `sep` between neighbours.
pub open spec fn joined(pieces: Seq<Seq<char>>, sep: Seq<char>) -> Seq<char>
    decreases pieces.len(),
{
    if pieces.len() == 0 {
        Seq::empty()
    } else if pieces.len() == 1 {
        pieces[0]
    } else {
        joined(pieces.drop_last(), sep) + sep + pieces.last()
    }
}

/// The strings of the list joined into one, with `sep` between neighbours.
pub fn join_strings(pieces: &Vec<String>, sep: &str) -> (r: String)
    ensures
        r@ == joined(pieces@.map_values(|p: String| p@), sep@),
{
    let ghost views = pieces@.map_values(|p: String| p@);
    let mut r = String::new();
    let mut i: usize = 0;
    while i < pieces.len()
        invariant
            views == pieces@.map_values(|p: String| p@),
            0 <= i <= pieces@.len(),
            r@ == joined(views.take(i as int), sep@),
        decreases pieces@.len() - i,
    {
        proof {
            assert(views.take(i + 1).drop_last() =~= views.take(i as int));
        }
        if i == 0 {
            r.append(pieces[i].as_str());
            assert(r@ =~= joined(views.take(1), sep@));
        } else {
            r.append(sep);
            r.append(pieces[i].as_str());
        }
        i = i + 1;
    }
    assert(views.take(pieces@.len() as int) =~= views);
    r
}

} // verus!
