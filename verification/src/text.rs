//! Text building blocks shared by the SQL generators: joining, quoting,
//! and rendering integers as digits.
use vstd::prelude::*;

verus! {

broadcast use vstd::string::group_string_axioms;

/// The concatenation of `parts`, in order.
pub open spec fn concat(parts: Seq<Seq<char>>) -> Seq<char>
    decreases parts.len(),
{
    if parts.len() == 0 {
        Seq::empty()
    } else {
        concat(parts.drop_last()) + parts.last()
    }
}

/// `parts` separated by `sep` (nothing before the first part or after the last).
pub open spec fn join(parts: Seq<Seq<char>>, sep: Seq<char>) -> Seq<char>
    decreases parts.len(),
{
    if parts.len() == 0 {
        Seq::empty()
    } else if parts.len() == 1 {
        parts[0]
    } else {
        join(parts.drop_last(), sep) + sep + parts.last()
    }
}

/// The view of each element, in order.
pub open spec fn views<T: View>(v: Seq<T>) -> Seq<T::V> {
    v.map_values(|x: T| x@)
}

pub proof fn lemma_views_push<T: View>(v: Seq<T>, x: T)
    ensures
        views(v.push(x)) == views(v).push(x@),
{
    assert(views(v.push(x)) =~= views(v).push(x@));
}

/// The character contents of an optional string.
pub open spec fn opt_string_view(o: Option<String>) -> Option<Seq<char>> {
    match o {
        Some(s) => Some(s@),
        None => None,
    }
}

/// `prefix + x + suffix` when `o` holds `x`, nothing otherwise.
pub open spec fn wrap_opt(prefix: Seq<char>, o: Option<Seq<char>>, suffix: Seq<char>) -> Seq<char> {
    match o {
        Some(x) => prefix + x + suffix,
        None => Seq::empty(),
    }
}

/// A single quote doubled, any other character kept.
pub open spec fn escape_char(c: char) -> Seq<char> {
    if c == '\'' {
        seq!['\'', '\'']
    } else {
        seq![c]
    }
}

/// `s` with every single quote doubled, as SQL string literals require.
pub open spec fn escape_quotes(s: Seq<char>) -> Seq<char>
    decreases s.len(),
{
    if s.len() == 0 {
        Seq::empty()
    } else {
        escape_quotes(s.drop_last()) + escape_char(s.last())
    }
}

/// Lower-case hexadecimal digit for `d < 16` (decimal digits are the first ten).
pub open spec fn hex_digit(d: nat) -> char {
    seq!['0', '1', '2', '3', '4', '5', '6', '7', '8', '9', 'a', 'b', 'c', 'd', 'e', 'f'][d as int]
}

/// Decimal notation of `n`, without leading zeros.
pub open spec fn decimal(n: nat) -> Seq<char>
    decreases n,
{
    if n < 10 {
        seq![hex_digit(n)]
    } else {
        decimal(n / 10) + seq![hex_digit(n % 10)]
    }
}

/// The last `width` lower-case hexadecimal digits of `n`, padded with zeros.
pub open spec fn hex_fixed(n: nat, width: nat) -> Seq<char>
    decreases width,
{
    if width == 0 {
        Seq::empty()
    } else {
        hex_fixed(n / 16, (width - 1) as nat) + seq![hex_digit(n % 16)]
    }
}

/// Whether `needle` appears as a contiguous part of `hay`.
pub open spec fn occurs_in(needle: Seq<char>, hay: Seq<char>) -> bool {
    exists|k: int|
        0 <= k && k + needle.len() <= hay.len() && #[trigger] hay.subrange(k, k + needle.len())
            == needle
}

pub proof fn lemma_occurs_middle(a: Seq<char>, n: Seq<char>, b: Seq<char>)
    ensures
        occurs_in(n, a + n + b),
{
    let h = a + n + b;
    let k = a.len() as int;
    assert(h.subrange(k, k + n.len()) =~= n);
}

pub proof fn lemma_occurs_extend(n: Seq<char>, h: Seq<char>, a: Seq<char>, b: Seq<char>)
    requires
        occurs_in(n, h),
    ensures
        occurs_in(n, a + h + b),
{
    let k = choose|k: int|
        0 <= k && k + n.len() <= h.len() && #[trigger] h.subrange(k, k + n.len()) == n;
    let big = a + h + b;
    let j = a.len() + k;
    assert(big.subrange(j, j + n.len()) =~= h.subrange(k, k + n.len()));
}

pub proof fn lemma_occurs_suffix(a: Seq<char>, n: Seq<char>)
    ensures
        occurs_in(n, a + n),
{
    let k = a.len() as int;
    assert((a + n).subrange(k, k + n.len()) =~= n);
}

pub proof fn lemma_occurs_append(n: Seq<char>, h: Seq<char>, b: Seq<char>)
    requires
        occurs_in(n, h),
    ensures
        occurs_in(n, h + b),
{
    let k = choose|k: int|
        0 <= k && k + n.len() <= h.len() && #[trigger] h.subrange(k, k + n.len()) == n;
    assert((h + b).subrange(k, k + n.len()) =~= h.subrange(k, k + n.len()));
}

pub proof fn lemma_occurs_trans(a: Seq<char>, b: Seq<char>, c: Seq<char>)
    requires
        occurs_in(a, b),
        occurs_in(b, c),
    ensures
        occurs_in(a, c),
{
    let i = choose|k: int|
        0 <= k && k + a.len() <= b.len() && #[trigger] b.subrange(k, k + a.len()) == a;
    let j = choose|k: int|
        0 <= k && k + b.len() <= c.len() && #[trigger] c.subrange(k, k + b.len()) == b;
    assert(c.subrange(j + i, j + i + a.len()) =~= b.subrange(i, i + a.len()));
}

pub proof fn lemma_prefix_occurs(a: Seq<char>, b: Seq<char>)
    requires
        a.is_prefix_of(b),
    ensures
        occurs_in(a, b),
{
    let k: int = 0;
    assert(b.subrange(k, k + a.len()) =~= a);
}

pub proof fn lemma_occurs_in_join(parts: Seq<Seq<char>>, sep: Seq<char>, i: int)
    requires
        0 <= i < parts.len(),
    ensures
        occurs_in(parts[i], join(parts, sep)),
    decreases parts.len(),
{
    if parts.len() == 1 {
        assert(join(parts, sep) == parts[0]);
        let k: int = 0;
        assert(parts[0].subrange(k, k + parts[0].len()) =~= parts[0]);
    } else {
        let front = join(parts.drop_last(), sep);
        if i == parts.len() - 1 {
            lemma_occurs_suffix(front + sep, parts.last());
        } else {
            lemma_occurs_in_join(parts.drop_last(), sep, i);
            lemma_occurs_append(parts[i], front, sep);
            lemma_occurs_append(parts[i], front + sep, parts.last());
        }
    }
}

pub proof fn lemma_occurs_in_concat(parts: Seq<Seq<char>>, i: int)
    requires
        0 <= i < parts.len(),
    ensures
        occurs_in(parts[i], concat(parts)),
    decreases parts.len(),
{
    let front = concat(parts.drop_last());
    if i == parts.len() - 1 {
        lemma_occurs_middle(front, parts.last(), Seq::empty());
        assert(front + parts.last() + Seq::<char>::empty() =~= concat(parts));
    } else {
        lemma_occurs_in_concat(parts.drop_last(), i);
        lemma_occurs_extend(parts[i], front, Seq::empty(), parts.last());
        assert(Seq::<char>::empty() + front + parts.last() =~= concat(parts));
    }
}

/// The number a string of decimal digits stands for.
pub open spec fn digits_value(s: Seq<char>) -> int
    decreases s.len(),
{
    if s.len() == 0 {
        0
    } else {
        digits_value(s.drop_last()) * 10 + (s.last() as int - '0' as int)
    }
}

/// The decimal notation of a number reads back as that number, and starts
/// with a non-zero digit unless the number is zero.
pub proof fn law_decimal_reads_back(n: nat)
    ensures
        digits_value(decimal(n)) == n,
        decimal(n).len() >= 1,
        n > 0 ==> decimal(n)[0] != '0',
    decreases n,
{
    if n < 10 {
        assert(decimal(n) =~= seq![hex_digit(n)]);
        assert(seq![hex_digit(n)].drop_last() =~= Seq::<char>::empty());
        assert(hex_digit(n) as int - '0' as int == n);
        assert(digits_value(Seq::<char>::empty()) == 0);
        assert(decimal(n).drop_last() =~= Seq::<char>::empty());
        assert(digits_value(decimal(n)) == digits_value(decimal(n).drop_last()) * 10 + (
        decimal(n).last() as int - '0' as int));
    } else {
        law_decimal_reads_back(n / 10);
        let d = n % 10;
        assert(decimal(n).drop_last() =~= decimal(n / 10));
        assert(decimal(n).last() == hex_digit(d));
        assert(hex_digit(d) as int - '0' as int == d);
        assert(decimal(n)[0] == decimal(n / 10)[0]);
        assert(n == (n / 10) * 10 + d);
        assert(digits_value(decimal(n)) == digits_value(decimal(n).drop_last()) * 10 + (
        decimal(n).last() as int - '0' as int));
    }
}

/// The fixed-width hexadecimal notation has exactly `width` digits, each a
/// lower-case hexadecimal digit.
pub proof fn law_hex_fixed_shape(n: nat, width: nat)
    ensures
        hex_fixed(n, width).len() == width,
        forall|i: int|
            0 <= i < width ==> ('0' <= #[trigger] hex_fixed(n, width)[i] <= '9' || 'a'
                <= hex_fixed(n, width)[i] <= 'f'),
    decreases width,
{
    if width > 0 {
        law_hex_fixed_shape(n / 16, (width - 1) as nat);
        let d = n % 16;
        assert('0' <= hex_digit(d) <= '9' || 'a' <= hex_digit(d) <= 'f');
        assert forall|i: int| 0 <= i < width implies ('0' <= #[trigger] hex_fixed(n, width)[i]
            <= '9' || 'a' <= hex_fixed(n, width)[i] <= 'f') by {
            if i < width - 1 {
                assert(hex_fixed(n, width)[i] == hex_fixed(n / 16, (width - 1) as nat)[i]);
            }
        }
    }
}

/// Quoting works character by character: text without quotes is kept as
/// it is, each quote is doubled, and the quoting of two texts put together
/// is the two quotings put together.
pub proof fn law_escape_quotes(a: Seq<char>, b: Seq<char>)
    ensures
        escape_quotes(a + b) == escape_quotes(a) + escape_quotes(b),
        (forall|i: int| 0 <= i < a.len() ==> a[i] != '\'') ==> escape_quotes(a) == a,
        escape_quotes(seq!['\'']) == seq!['\'', '\''],
    decreases b.len(),
{
    if b.len() == 0 {
        assert(a + b =~= a);
        assert(escape_quotes(b) =~= Seq::<char>::empty());
    } else {
        law_escape_quotes(a, b.drop_last());
        assert((a + b).drop_last() =~= a + b.drop_last());
        assert((a + b).last() == b.last());
    }
    lemma_escape_plain(a);
    assert(seq!['\''].drop_last() =~= Seq::<char>::empty());
    let q = seq!['\''];
    assert(escape_quotes(Seq::<char>::empty()) =~= Seq::<char>::empty());
    assert(q.drop_last() =~= Seq::<char>::empty());
    assert(escape_quotes(q) == escape_quotes(q.drop_last()) + escape_char(q.last()));
    assert(escape_quotes(q) =~= seq!['\'', '\'']);
}

proof fn lemma_escape_plain(a: Seq<char>)
    ensures
        (forall|i: int| 0 <= i < a.len() ==> a[i] != '\'') ==> escape_quotes(a) == a,
    decreases a.len(),
{
    if a.len() > 0 {
        lemma_escape_plain(a.drop_last());
        if forall|i: int| 0 <= i < a.len() ==> a[i] != '\'' {
            assert(a.last() == a[a.len() - 1]);
            assert(a.drop_last() + seq![a.last()] =~= a);
        }
    }
}

pub proof fn lemma_concat_push(parts: Seq<Seq<char>>, p: Seq<char>)
    ensures
        concat(parts.push(p)) == concat(parts) + p,
{
    assert(parts.push(p).drop_last() =~= parts);
}

pub proof fn lemma_concat_append(a: Seq<Seq<char>>, b: Seq<Seq<char>>)
    ensures
        concat(a + b) == concat(a) + concat(b),
    decreases b.len(),
{
    if b.len() == 0 {
        assert(a + b =~= a);
        assert(concat(a) + concat(b) =~= concat(a));
    } else {
        lemma_concat_append(a, b.drop_last());
        assert((a + b).drop_last() =~= a + b.drop_last());
        assert(concat(a) + concat(b) =~= concat(a) + concat(b.drop_last()) + b.last());
    }
}

pub proof fn lemma_join_push(parts: Seq<Seq<char>>, sep: Seq<char>, p: Seq<char>)
    ensures
        join(parts.push(p), sep) == if parts.len() == 0 {
            p
        } else {
            join(parts, sep) + sep + p
        },
{
    assert(parts.push(p).drop_last() =~= parts);
}

pub proof fn lemma_escape_push(s: Seq<char>, c: char)
    ensures
        escape_quotes(s.push(c)) == escape_quotes(s) + escape_char(c),
{
    assert(s.push(c).drop_last() =~= s);
}

/// Calls `String::push`, which appends the character at the end.
#[verifier::external_body]
fn push_char(s: &mut String, c: char)
    ensures
        final(s)@ == old(s)@.push(c),
{
    s.push(c);
}

/// The string spelled by a single digit, for `d < 16`.
fn digit_str(d: u64) -> (r: &'static str)
    requires
        d < 16,
    ensures
        r@ == seq![hex_digit(d as nat)],
{
    proof {
        reveal_strlit("0");
        reveal_strlit("1");
        reveal_strlit("2");
        reveal_strlit("3");
        reveal_strlit("4");
        reveal_strlit("5");
        reveal_strlit("6");
        reveal_strlit("7");
        reveal_strlit("8");
        reveal_strlit("9");
        reveal_strlit("a");
        reveal_strlit("b");
        reveal_strlit("c");
        reveal_strlit("d");
        reveal_strlit("e");
        reveal_strlit("f");
    }
    let r = match d {
        0 => "0",
        1 => "1",
        2 => "2",
        3 => "3",
        4 => "4",
        5 => "5",
        6 => "6",
        7 => "7",
        8 => "8",
        9 => "9",
        10 => "a",
        11 => "b",
        12 => "c",
        13 => "d",
        14 => "e",
        _ => "f",
    };
    assert(r@ =~= seq![hex_digit(d as nat)]);
    r
}

/// Decimal notation of `n`.
pub fn decimal_string(n: u32) -> (r: String)
    ensures
        r@ == decimal(n as nat),
    decreases n,
{
    if n < 10 {
        let mut s = String::new();
        s.append(digit_str(n as u64));
        s
    } else {
        let mut s = decimal_string(n / 10);
        s.append(digit_str((n % 10) as u64));
        s
    }
}

/// The last `width` hexadecimal digits of `n`, zero-padded, lower case.
pub fn hex_fixed_string(n: u64, width: u32) -> (r: String)
    ensures
        r@ == hex_fixed(n as nat, width as nat),
    decreases width,
{
    if width == 0 {
        String::new()
    } else {
        let mut s = hex_fixed_string(n / 16, width - 1);
        s.append(digit_str(n % 16));
        s
    }
}

/// `s` with every single quote doubled.
pub fn escape_quotes_string(s: &str) -> (r: String)
    ensures
        r@ == escape_quotes(s@),
{
    let mut out = String::new();
    let ghost mut seen: Seq<char> = Seq::empty();
    for c in it: s.chars()
        invariant
            it.seq() == s@,
            seen == it.seq().take(it.index() as int),
            out@ == escape_quotes(seen),
    {
        proof {
            lemma_escape_push(seen, c);
            assert(it.seq().take(it.index() + 1) =~= seen.push(c));
            seen = seen.push(c);
        }
        if c == '\'' {
            out.append("''");
            proof {
                reveal_strlit("''");
                assert("''"@ =~= escape_char(c));
            }
        } else {
            push_char(&mut out, c);
        }
    }
    assert(seen =~= s@);
    out
}

/// A fresh string holding `s`.
pub fn owned(s: &str) -> (r: String)
    ensures
        r@ == s@,
{
    let mut r = String::new();
    r.append(s);
    r
}

/// `prefix + x + suffix` when `o` holds `x`, the empty string otherwise.
pub fn wrap_opt_string(prefix: &str, o: &Option<String>, suffix: &str) -> (r: String)
    ensures
        r@ == wrap_opt(prefix@, opt_string_view(*o), suffix@),
{
    let mut r = String::new();
    match o {
        Some(x) => {
            r.append(prefix);
            r.append(x.as_str());
            r.append(suffix);
        },
        None => {},
    }
    r
}

/// A copy of an optional string with the same contents.
pub fn clone_opt_string(o: &Option<String>) -> (r: Option<String>)
    ensures
        opt_string_view(r) == opt_string_view(*o),
{
    match o {
        Some(s) => Some(s.clone()),
        None => None,
    }
}

/// A copy of `v` with the same contents.
pub fn clone_strings(v: &Vec<String>) -> (r: Vec<String>)
    ensures
        views(r@) == views(v@),
{
    let r = v.clone();
    assert(views(r@) =~= views(v@));
    r
}

/// `parts` separated by `sep`.
pub fn join_strings(parts: &Vec<String>, sep: &str) -> (r: String)
    ensures
        r@ == join(views(parts@), sep@),
{
    let mut out = String::new();
    let mut i: usize = 0;
    while i < parts.len()
        invariant
            i <= parts.len(),
            out@ == join(views(parts@).take(i as int), sep@),
        decreases parts.len() - i,
    {
        let ghost prefix = views(parts@).take(i as int);
        proof {
            lemma_join_push(prefix, sep@, parts@[i as int]@);
            assert(views(parts@).take(i + 1) =~= prefix.push(parts@[i as int]@));
        }
        if i > 0 {
            out.append(sep);
        }
        out.append(parts[i].as_str());
        i = i + 1;
    }
    assert(views(parts@).take(parts.len() as int) =~= views(parts@));
    out
}

} // verus!
