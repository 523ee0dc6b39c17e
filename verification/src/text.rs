use vstd::prelude::*;

verus! {

/// The character of a decimal digit.
pub open spec fn digit_char(d: nat) -> char {
    if d == 0 { '0' }
    else if d == 1 { '1' }
    else if d == 2 { '2' }
    else if d == 3 { '3' }
    else if d == 4 { '4' }
    else if d == 5 { '5' }
    else if d == 6 { '6' }
    else if d == 7 { '7' }
    else if d == 8 { '8' }
    else { '9' }
}

/// The decimal notation of a natural number, without leading zeros.
pub open spec fn nat_decimal(n: nat) -> Seq<char>
    decreases n,
{
    if n < 10 {
        seq![digit_char(n)]
    } else {
        nat_decimal(n / 10).push(digit_char(n % 10))
    }
}

/// The decimal notation of an integer: a minus sign before a negative one.
pub open spec fn int_decimal(i: int) -> Seq<char> {
    if i < 0 {
        seq!['-'] + nat_decimal((-i) as nat)
    } else {
        nat_decimal(i as nat)
    }
}

/// The items joined by the separator, in order.
pub open spec fn join(items: Seq<Seq<char>>, sep: Seq<char>) -> Seq<char>
    decreases items.len(),
{
    if items.len() == 0 {
        Seq::empty()
    } else if items.len() == 1 {
        items[0]
    } else {
        join(items.drop_last(), sep) + sep + items.last()
    }
}

/// The views of a vector of strings.
pub open spec fn string_views(v: Seq<String>) -> Seq<Seq<char>> {
    v.map_values(|s: String| s@)
}

/// A new string holding the characters of `s`.
pub fn string_of(s: &str) -> (r: String)
    ensures
        r@ == s@,
{
    String::from_str(s)
}

/// The single-character string of a decimal digit.
fn digit_str(d: u64) -> (r: &'static str)
    requires
        d < 10,
    ensures
        r@ == seq![digit_char(d as nat)],
{
    proof {
        reveal_strlit("0");
        reveal_strlit("1");
        reveal_strlit("2");
        reveal_strlit("3");
        reveal_strlit("4");
        reveal_strlit("5");
        reveal_strlit("6");
        reveal_strlit("7");
        reveal_strlit("8");
        reveal_strlit("9");
    }
    if d == 0 { "0" }
    else if d == 1 { "1" }
    else if d == 2 { "2" }
    else if d == 3 { "3" }
    else if d == 4 { "4" }
    else if d == 5 { "5" }
    else if d == 6 { "6" }
    else if d == 7 { "7" }
    else if d == 8 { "8" }
    else { "9" }
}

/// The decimal notation of `n`, as `{}` prints a `u64`.
pub fn u64_decimal(n: u64) -> (r: String)
    ensures
        r@ == nat_decimal(n as nat),
    decreases n,
{
    if n < 10 {
        string_of(digit_str(n))
    } else {
        let mut r = u64_decimal(n / 10);
        r.append(digit_str(n % 10));
        r
    }
}

/// The decimal notation of `i`, as `{}` and `{:?}` print an `i64`.
pub fn i64_decimal(i: i64) -> (r: String)
    ensures
        r@ == int_decimal(i as int),
{
    if i < 0 {
        let magnitude: u64 = ((-(i + 1)) as u64) + 1;
        let mut r = string_of("-");
        proof {
            reveal_strlit("-");
        }
        let digits = u64_decimal(magnitude);
        r.append(digits.as_str());
        r
    } else {
        u64_decimal(i as u64)
    }
}

/// The items of `items` joined by `sep`.
pub fn join_strings(items: &Vec<String>, sep: &str) -> (r: String)
    ensures
        r@ == join(string_views(items@), sep@),
{
    let ghost views = string_views(items@);
    let mut r = String::new();
    let mut i: usize = 0;
    while i < items.len()
        invariant
            i <= items.len(),
            views == string_views(items@),
            r@ == join(views.take(i as int), sep@),
        decreases items.len() - i,
    {
        if i > 0 {
            r.append(sep);
        }
        r.append(items[i].as_str());
        assert(views.take((i + 1) as int).drop_last() =~= views.take(i as int));
        i = i + 1;
    }
    assert(views.take(items.len() as int) =~= views);
    r
}

/// Whether `s` begins with `prefix`, compared character by character.
pub fn has_prefix(s: &str, prefix: &str) -> (r: bool)
    ensures
        r == prefix@.is_prefix_of(s@),
{
    let n = prefix.unicode_len();
    let m = s.unicode_len();
    if n > m {
        return false;
    }
    let mut i: usize = 0;
    while i < n
        invariant
            n == prefix@.len(),
            m == s@.len(),
            n <= m,
            i <= n,
            forall|j: int| 0 <= j < i ==> s@[j] == prefix@[j],
        decreases n - i,
    {
        if s.get_char(i) != prefix.get_char(i) {
            return false;
        }
        i = i + 1;
    }
    assert(prefix@ =~= s@.subrange(0, n as int));
    true
}

} // verus!

verus! {

/// What `{:?}` prints for a string slice: std's `Debug` for `str`, which
/// quotes the text and escapes some of its characters.
pub uninterp spec fn str_debug_text(s: Seq<char>) -> Seq<char>;

/// What `{:?}` prints for a vector of strings: the debug text of each
/// string, separated by `, `, in square brackets.
pub open spec fn string_list_debug_text(items: Seq<Seq<char>>) -> Seq<char> {
    "["@ + join(items.map_values(|s: Seq<char>| str_debug_text(s)), ", "@) + "]"@
}

/// Formats `s` with std's `Debug` for `str` (`format!("{:?}", s)`).
/// The contract names the result and claims only that it is a function of
/// the characters of `s`; how std escapes is not stated.
#[verifier::external_body]
pub(crate) fn debug_str(s: &str) -> (r: String)
    ensures
        r@ == str_debug_text(s@),
{
    format!("{:?}", s)
}

/// The debug text of a vector of strings (see [`string_list_debug_text`]).
pub fn debug_string_list(items: &Vec<String>) -> (r: String)
    ensures
        r@ == string_list_debug_text(string_views(items@)),
{
    let ghost texts = string_views(items@).map_values(|s: Seq<char>| str_debug_text(s));
    let mut body = String::new();
    let mut i: usize = 0;
    while i < items.len()
        invariant
            i <= items.len(),
            texts == string_views(items@).map_values(|s: Seq<char>| str_debug_text(s)),
            body@ == join(texts.take(i as int), ", "@),
        decreases items.len() - i,
    {
        if i > 0 {
            body.append(", ");
        }
        append_debug_str(&mut body, items[i].as_str());
        assert(texts[i as int] == str_debug_text(items@[i as int]@));
        assert(texts.take((i + 1) as int).drop_last() =~= texts.take(i as int));
        i = i + 1;
    }
    assert(texts.take(items.len() as int) =~= texts);
    let mut r = string_of("[");
    r.append(body.as_str());
    r.append("]");
    r
}

/// What `{:?}` prints for a `bool`.
pub open spec fn bool_debug_text(b: bool) -> Seq<char> {
    if b { "true"@ } else { "false"@ }
}

/// What `{:?}` prints for an `Option<i64>`.
pub open spec fn option_i64_debug_text(o: Option<i64>) -> Seq<char> {
    match o {
        Some(v) => "Some("@ + int_decimal(v as int) + ")"@,
        None => "None"@,
    }
}

/// Appends `{:?}` of `s` to `out`.
pub fn append_debug_str(out: &mut String, s: &str)
    ensures
        final(out)@ == old(out)@ + str_debug_text(s@),
{
    let d = debug_str(s);
    out.append(d.as_str());
}

/// Appends `{:?}` of `b` to `out`.
pub fn append_debug_bool(out: &mut String, b: bool)
    ensures
        final(out)@ == old(out)@ + bool_debug_text(b),
{
    if b {
        out.append("true");
    } else {
        out.append("false");
    }
}

/// Appends `{:?}` (the decimal notation) of `i` to `out`.
pub fn append_i64(out: &mut String, i: i64)
    ensures
        final(out)@ == old(out)@ + int_decimal(i as int),
{
    let d = i64_decimal(i);
    out.append(d.as_str());
}

/// Appends `{:?}` of `o` to `out`.
pub fn append_debug_option_i64(out: &mut String, o: Option<i64>)
    ensures
        final(out)@ == old(out)@ + option_i64_debug_text(o),
{
    match o {
        Some(v) => {
            out.append("Some(");
            append_i64(out, v);
            out.append(")");
        },
        None => {
            out.append("None");
        },
    }
}

} // verus!

verus! {

/// Joining nothing gives nothing; joining one item gives that item.
pub proof fn lemma_join_small(x: Seq<char>, sep: Seq<char>)
    ensures
        join(Seq::empty(), sep) == Seq::<char>::empty(),
        join(seq![x], sep) == x,
{
}

/// Joining two non-empty runs of items is joining each and putting the
/// separator between: every item appears, in order, each pair of neighbours
/// separated once.
pub proof fn lemma_join_append(a: Seq<Seq<char>>, b: Seq<Seq<char>>, sep: Seq<char>)
    requires
        a.len() > 0,
        b.len() > 0,
    ensures
        join(a + b, sep) == join(a, sep) + sep + join(b, sep),
    decreases b.len(),
{
    if b.len() == 1 {
        assert((a + b).drop_last() =~= a);
        assert((a + b).last() == b[0]);
    } else {
        let b1 = b.drop_last();
        lemma_join_append(a, b1, sep);
        assert((a + b).drop_last() =~= a + b1);
        assert((a + b).last() == b.last());
        assert(join(b, sep) == join(b1, sep) + sep + b.last());
    }
}

} // verus!

verus! {

/// `piece` occurs in `text`.
pub open spec fn shows(text: Seq<char>, piece: Seq<char>) -> bool {
    exists|i: int| 0 <= i <= text.len() - piece.len() && #[trigger] text.subrange(i, i + piece.len()) == piece
}

/// A piece between two others occurs in their concatenation.
pub proof fn lemma_shows(pre: Seq<char>, piece: Seq<char>, post: Seq<char>)
    ensures
        shows(pre + piece + post, piece),
{
    let text = pre + piece + post;
    let i = pre.len() as int;
    assert(text.subrange(i, i + piece.len()) =~= piece);
}

} // verus!

verus! {

/// The value of a decimal digit character.
pub open spec fn digit_value(c: char) -> int {
    c as int - '0' as int
}

/// The number that a string of decimal digits denotes.
pub open spec fn decimal_value(s: Seq<char>) -> int
    decreases s.len(),
{
    if s.len() == 0 {
        0
    } else {
        10 * decimal_value(s.drop_last()) + digit_value(s.last())
    }
}

/// The decimal notation of `n` is made of digits, starts with a digit other
/// than `0` unless `n` is 0, and denotes `n`.
pub proof fn lemma_nat_decimal_denotes(n: nat)
    ensures
        nat_decimal(n).len() > 0,
        forall|i: int| 0 <= i < nat_decimal(n).len() ==> '0' <= #[trigger] nat_decimal(n)[i] <= '9',
        n > 0 ==> nat_decimal(n)[0] != '0',
        decimal_value(nat_decimal(n)) == n,
    decreases n,
{
    lemma_digit_char_value(n % 10);
    if n >= 10 {
        lemma_nat_decimal_denotes(n / 10);
        let s = nat_decimal(n);
        assert(s.drop_last() =~= nat_decimal(n / 10));
        assert(s[0] == nat_decimal(n / 10)[0]);
        assert(n == 10 * (n / 10) + n % 10);
        assert(s.last() == digit_char(n % 10));
        assert(decimal_value(s) == 10 * decimal_value(s.drop_last()) + digit_value(s.last()));
    } else {
        let s = nat_decimal(n);
        assert(s.drop_last() =~= Seq::<char>::empty());
        assert(n % 10 == n);
        assert(s.last() == digit_char(n));
        assert(decimal_value(s) == 10 * decimal_value(s.drop_last()) + digit_value(s.last()));
    }
}

proof fn lemma_digit_char_value(d: nat)
    requires
        d < 10,
    ensures
        digit_value(digit_char(d)) == d,
        '0' <= digit_char(d) <= '9',
        d > 0 ==> digit_char(d) != '0',
{
}

/// The decimal notation of an integer: a minus sign before the notation of
/// its magnitude when it is negative.
pub proof fn lemma_int_decimal_sign(i: int)
    ensures
        i < 0 ==> int_decimal(i)[0] == '-' && int_decimal(i).drop_first() == nat_decimal((-i) as nat),
        i >= 0 ==> int_decimal(i) == nat_decimal(i as nat),
{
    if i < 0 {
        assert((seq!['-'] + nat_decimal((-i) as nat)).drop_first() =~= nat_decimal((-i) as nat));
    }
}

} // verus!
