use vstd::prelude::*;

verus! {

// ---------------------------------------------------------------------------
// Decimal rendering
// ---------------------------------------------------------------------------

/// The character for a single decimal digit.
pub open spec fn dec_digit_char(d: nat) -> char {
    if d == 0 {
        '0'
    } else if d == 1 {
        '1'
    } else if d == 2 {
        '2'
    } else if d == 3 {
        '3'
    } else if d == 4 {
        '4'
    } else if d == 5 {
        '5'
    } else if d == 6 {
        '6'
    } else if d == 7 {
        '7'
    } else if d == 8 {
        '8'
    } else {
        '9'
    }
}

/// Decimal rendering of a natural number, most significant digit first.
pub open spec fn dec_str(n: nat) -> Seq<char>
    decreases n,
{
    if n < 10 {
        seq![dec_digit_char(n)]
    } else {
        dec_str(n / 10).push(dec_digit_char(n % 10))
    }
}

/// Decimal rendering of an integer: a minus sign for negative values.
pub open spec fn dec_str_int(n: int) -> Seq<char> {
    if n >= 0 {
        dec_str(n as nat)
    } else {
        seq!['-'] + dec_str((-n) as nat)
    }
}

fn digit_str(d: u64) -> (r: &'static str)
    requires
        d < 10,
    ensures
        r@ == seq![dec_digit_char(d as nat)],
{
    proof {
        reveal_strlit("0");
        reveal_strlit("1");
        reveal_strlit("2");
        reveal_strlit("3");
        reveal_strlit("4");
        reveal_strlit("5");
        reveal_strlit("6");
        reveal_strlit("7");
        reveal_strlit("8");
        reveal_strlit("9");
    }
    let r: &'static str = match d {
        0 => "0",
        1 => "1",
        2 => "2",
        3 => "3",
        4 => "4",
        5 => "5",
        6 => "6",
        7 => "7",
        8 => "8",
        _ => "9",
    };
    proof {
        assert(r@ =~= seq![dec_digit_char(d as nat)]);
    }
    r
}

/// Render an unsigned number in decimal.
pub fn u64_to_string(n: u64) -> (r: String)
    ensures
        r@ == dec_str(n as nat),
    decreases n,
{
    if n < 10 {
        String::from_str(digit_str(n))
    } else {
        let q = n / 10;
        let d = n % 10;
        let r = u64_to_string(q).concat(digit_str(d));
        proof {
            assert(r@ =~= dec_str(n as nat));
        }
        r
    }
}

/// Render a signed number in decimal.
pub fn i64_to_string(n: i64) -> (r: String)
    ensures
        r@ == dec_str_int(n as int),
{
    if n >= 0 {
        u64_to_string(n as u64)
    } else {
        let m: u64 = if n == i64::MIN {
            9223372036854775808u64
        } else {
            (-n) as u64
        };
        proof {
            reveal_strlit("-");
        }
        let r = String::from_str("-").concat(u64_to_string(m).as_str());
        proof {
            assert("-"@ =~= seq!['-']);
            assert(r@ =~= dec_str_int(n as int));
        }
        r
    }
}

// ---------------------------------------------------------------------------
// Splitting
// ---------------------------------------------------------------------------

/// Splitting state: `acc` holds the finished fields, `cur` the field being
/// read, and `i` the position of the next character.  Splitting keeps empty
/// fields, as `str::split` does.
pub open spec fn split_acc(s: Seq<char>, sep: char, i: int, cur: Seq<char>, acc: Seq<Seq<char>>) -> Seq<
    Seq<char>,
>
    decreases s.len() - i,
{
    if i < 0 || i >= s.len() {
        acc.push(cur)
    } else if s[i] == sep {
        split_acc(s, sep, i + 1, Seq::empty(), acc.push(cur))
    } else {
        split_acc(s, sep, i + 1, cur.push(s[i]), acc)
    }
}

/// The fields of `s` between occurrences of `sep`, empty fields kept.
pub open spec fn split_chars(s: Seq<char>, sep: char) -> Seq<Seq<char>> {
    split_acc(s, sep, 0, Seq::empty(), Seq::empty())
}

/// Split on a separator character, keeping empty fields.
pub fn split_char(s: &str, sep: char) -> (r: Vec<String>)
    ensures
        r.deep_view() == split_chars(s@, sep),
{
    let n = s.unicode_len();
    let mut acc: Vec<String> = Vec::new();
    let mut start: usize = 0;
    let mut i: usize = 0;
    proof {
        assert(s@.subrange(0, 0) =~= Seq::<char>::empty());
        assert(acc.deep_view() =~= Seq::<Seq<char>>::empty());
    }
    while i < n
        invariant
            n == s@.len(),
            start <= i <= n,
            split_chars(s@, sep) == split_acc(
                s@,
                sep,
                i as int,
                s@.subrange(start as int, i as int),
                acc.deep_view(),
            ),
        decreases n - i,
    {
        let c = s.get_char(i);
        if c == sep {
            let field = s.substring_char(start, i).to_owned();
            let ghost old_acc = acc.deep_view();
            acc.push(field);
            proof {
                assert(acc.deep_view() =~= old_acc.push(s@.subrange(start as int, i as int)));
                assert(s@.subrange(i as int + 1, i as int + 1) =~= Seq::<char>::empty());
            }
            start = i + 1;
        } else {
            proof {
                assert(s@.subrange(start as int, i as int + 1) =~= s@.subrange(
                    start as int,
                    i as int,
                ).push(s@[i as int]));
            }
        }
        i = i + 1;
    }
    let field = s.substring_char(start, n).to_owned();
    let ghost old_acc = acc.deep_view();
    acc.push(field);
    proof {
        assert(acc.deep_view() =~= old_acc.push(s@.subrange(start as int, n as int)));
    }
    acc
}

/// The whitespace characters recognised when splitting command-line text.
pub open spec fn is_space(c: char) -> bool {
    c == ' ' || c == '\t' || c == '\n' || c == '\r'
}

/// Splitting on runs of whitespace: no empty fields are kept.
pub open spec fn split_ws_acc(s: Seq<char>, i: int, cur: Seq<char>, acc: Seq<Seq<char>>) -> Seq<
    Seq<char>,
>
    decreases s.len() - i,
{
    if i < 0 || i >= s.len() {
        if cur.len() == 0 {
            acc
        } else {
            acc.push(cur)
        }
    } else if is_space(s[i]) {
        if cur.len() == 0 {
            split_ws_acc(s, i + 1, Seq::empty(), acc)
        } else {
            split_ws_acc(s, i + 1, Seq::empty(), acc.push(cur))
        }
    } else {
        split_ws_acc(s, i + 1, cur.push(s[i]), acc)
    }
}

/// The maximal whitespace-free runs of `s`, in order.
pub open spec fn split_ws(s: Seq<char>) -> Seq<Seq<char>> {
    split_ws_acc(s, 0, Seq::empty(), Seq::empty())
}

fn is_space_exec(c: char) -> (r: bool)
    ensures
        r == is_space(c),
{
    c == ' ' || c == '\t' || c == '\n' || c == '\r'
}

/// Split on runs of whitespace, dropping empty fields.
pub fn split_whitespace(s: &str) -> (r: Vec<String>)
    ensures
        r.deep_view() == split_ws(s@),
{
    let n = s.unicode_len();
    let mut acc: Vec<String> = Vec::new();
    let mut start: usize = 0;
    let mut i: usize = 0;
    proof {
        assert(s@.subrange(0, 0) =~= Seq::<char>::empty());
        assert(acc.deep_view() =~= Seq::<Seq<char>>::empty());
    }
    while i < n
        invariant
            n == s@.len(),
            start <= i <= n,
            split_ws(s@) == split_ws_acc(
                s@,
                i as int,
                s@.subrange(start as int, i as int),
                acc.deep_view(),
            ),
        decreases n - i,
    {
        let c = s.get_char(i);
        if is_space_exec(c) {
            if start < i {
                let field = s.substring_char(start, i).to_owned();
                let ghost old_acc = acc.deep_view();
                acc.push(field);
                proof {
                    assert(acc.deep_view() =~= old_acc.push(
                        s@.subrange(start as int, i as int),
                    ));
                }
            }
            proof {
                assert(s@.subrange(i as int + 1, i as int + 1) =~= Seq::<char>::empty());
            }
            start = i + 1;
        } else {
            proof {
                assert(s@.subrange(start as int, i as int + 1) =~= s@.subrange(
                    start as int,
                    i as int,
                ).push(s@[i as int]));
            }
        }
        i = i + 1;
    }
    if start < n {
        let field = s.substring_char(start, n).to_owned();
        let ghost old_acc = acc.deep_view();
        acc.push(field);
        proof {
            assert(acc.deep_view() =~= old_acc.push(s@.subrange(start as int, n as int)));
        }
    }
    acc
}

proof fn lemma_split_acc_len(s: Seq<char>, sep: char, i: int, cur: Seq<char>, acc: Seq<Seq<char>>)
    ensures
        split_acc(s, sep, i, cur, acc).len() > acc.len(),
    decreases s.len() - i,
{
    if i < 0 || i >= s.len() {
    } else if s[i] == sep {
        lemma_split_acc_len(s, sep, i + 1, Seq::empty(), acc.push(cur));
    } else {
        lemma_split_acc_len(s, sep, i + 1, cur.push(s[i]), acc);
    }
}

/// A line without its trailing newline, if it has one.
pub open spec fn chomp_chars(s: Seq<char>) -> Seq<char> {
    if ends_with_char(s, '\n') {
        s.drop_last()
    } else {
        s
    }
}

/// Remove one trailing newline from a streamed line.
pub fn chomp(s: &str) -> (r: String)
    ensures
        r@ == chomp_chars(s@),
{
    let n = s.unicode_len();
    if str_ends_with_char(s, '\n') {
        let r = s.substring_char(0, n - 1).to_owned();
        proof {
            assert(s@.subrange(0, n as int - 1) =~= s@.drop_last());
        }
        r
    } else {
        s.to_owned()
    }
}

/// A line without its trailing carriage return, if it has one.
pub open spec fn strip_cr(t: Seq<char>) -> Seq<char> {
    if t.len() > 0 && t.last() == '\r' {
        t.drop_last()
    } else {
        t
    }
}

/// The lines of a text: fields between newlines, without a final empty
/// field after a trailing newline, each without a trailing carriage return.
pub open spec fn lines_chars(s: Seq<char>) -> Seq<Seq<char>> {
    if s.len() == 0 {
        Seq::empty()
    } else {
        let parts = split_chars(s, '\n');
        let kept = if parts.last().len() == 0 {
            parts.drop_last()
        } else {
            parts
        };
        kept.map_values(|t: Seq<char>| strip_cr(t))
    }
}

/// Split a text into its lines.
pub fn split_lines(s: &str) -> (r: Vec<String>)
    ensures
        r.deep_view() == lines_chars(s@),
{
    if s.unicode_len() == 0 {
        let r: Vec<String> = Vec::new();
        proof {
            assert(r.deep_view() =~= lines_chars(s@));
        }
        return r;
    }
    let mut parts = split_char(s, '\n');
    proof {
        lemma_split_acc_len(s@, '\n', 0, Seq::empty(), Seq::empty());
    }
    let last_len = parts[parts.len() - 1].as_str().unicode_len();
    let ghost kept = if split_chars(s@, '\n').last().len() == 0 {
        split_chars(s@, '\n').drop_last()
    } else {
        split_chars(s@, '\n')
    };
    if last_len == 0 {
        parts.pop();
        proof {
            assert(parts.deep_view() =~= kept);
        }
    }
    let mut out: Vec<String> = Vec::new();
    let mut i: usize = 0;
    while i < parts.len()
        invariant
            i <= parts@.len(),
            parts.deep_view() == kept,
            out@.len() == i,
            forall|k: int| 0 <= k < i ==> (#[trigger] out@[k])@ == strip_cr(kept[k]),
        decreases parts@.len() - i,
    {
        let p = &parts[i];
        let plen = p.as_str().unicode_len();
        let line: String = if plen > 0 && p.as_str().get_char(plen - 1) == '\r' {
            p.as_str().substring_char(0, plen - 1).to_owned()
        } else {
            p.clone()
        };
        proof {
            assert(parts.deep_view()[i as int] == parts@[i as int]@);
            if plen > 0 && p@[plen - 1] == '\r' {
                assert(p@.subrange(0, plen as int - 1) =~= p@.drop_last());
            }
        }
        out.push(line);
        i = i + 1;
    }
    proof {
        assert(out.deep_view() =~= kept.map_values(|t: Seq<char>| strip_cr(t)));
        assert(out.deep_view() =~= lines_chars(s@));
    }
    out
}

// ---------------------------------------------------------------------------
// Trimming
// ---------------------------------------------------------------------------

/// `s` without leading whitespace.
pub open spec fn trim_front(s: Seq<char>) -> Seq<char>
    decreases s.len(),
{
    if s.len() > 0 && is_space(s[0]) {
        trim_front(s.drop_first())
    } else {
        s
    }
}

/// `s` without trailing whitespace.
pub open spec fn trim_back(s: Seq<char>) -> Seq<char>
    decreases s.len(),
{
    if s.len() > 0 && is_space(s.last()) {
        trim_back(s.drop_last())
    } else {
        s
    }
}

/// `s` without leading or trailing whitespace.
pub open spec fn trim_chars(s: Seq<char>) -> Seq<char> {
    trim_back(trim_front(s))
}

/// Remove leading and trailing whitespace.
pub fn trim(s: &str) -> (r: String)
    ensures
        r@ == trim_chars(s@),
{
    let n = s.unicode_len();
    let mut a: usize = 0;
    proof {
        assert(s@.skip(0) =~= s@);
    }
    while a < n && is_space_exec(s.get_char(a))
        invariant
            n == s@.len(),
            a <= n,
            trim_front(s@) == trim_front(s@.skip(a as int)),
        decreases n - a,
    {
        proof {
            assert(s@.skip(a as int).drop_first() =~= s@.skip(a as int + 1));
        }
        a = a + 1;
    }
    proof {
        assert(trim_front(s@) == s@.skip(a as int));
    }
    let mut b: usize = n;
    while b > a && is_space_exec(s.get_char(b - 1))
        invariant
            n == s@.len(),
            a <= b <= n,
            trim_front(s@) == s@.skip(a as int),
            trim_back(s@.skip(a as int)) == trim_back(s@.subrange(a as int, b as int)),
        decreases b,
    {
        proof {
            assert(s@.subrange(a as int, b as int).drop_last() =~= s@.subrange(
                a as int,
                b as int - 1,
            ));
        }
        b = b - 1;
    }
    let r = s.substring_char(a, b).to_owned();
    proof {
        assert(s@.skip(a as int) =~= s@.subrange(a as int, n as int));
        assert(trim_back(s@.subrange(a as int, b as int)) == s@.subrange(a as int, b as int));
    }
    r
}

// ---------------------------------------------------------------------------
// Joining
// ---------------------------------------------------------------------------

/// The fields of `ts` joined with `sep` between consecutive fields.
pub open spec fn join_chars(ts: Seq<Seq<char>>, sep: Seq<char>) -> Seq<char>
    decreases ts.len(),
{
    if ts.len() == 0 {
        Seq::empty()
    } else if ts.len() == 1 {
        ts[0]
    } else {
        ts[0] + sep + join_chars(ts.drop_first(), sep)
    }
}

proof fn lemma_join_push(ts: Seq<Seq<char>>, sep: Seq<char>, t: Seq<char>)
    ensures
        join_chars(ts.push(t), sep) == if ts.len() == 0 {
            t
        } else {
            join_chars(ts, sep) + sep + t
        },
    decreases ts.len(),
{
    if ts.len() == 0 {
        assert(ts.push(t)[0] == t);
        assert(join_chars(ts.push(t), sep) == t);
    } else if ts.len() == 1 {
        assert(ts.push(t).drop_first() =~= seq![t]);
        assert(join_chars(seq![t], sep) == seq![t][0]);
        assert(seq![t][0] == t);
        assert(ts.push(t)[0] == ts[0]);
        assert(join_chars(ts.push(t), sep) == ts[0] + sep + t);
        assert(join_chars(ts, sep) == ts[0]);
    } else {
        assert(ts.push(t).drop_first() =~= ts.drop_first().push(t));
        lemma_join_push(ts.drop_first(), sep, t);
        assert(join_chars(ts.push(t), sep) =~= join_chars(ts, sep) + sep + t);
    }
}

/// Join fields with a separator.
pub fn join(ts: &Vec<String>, sep: &str) -> (r: String)
    ensures
        r@ == join_chars(ts.deep_view(), sep@),
{
    let mut r = String::new();
    let mut i: usize = 0;
    while i < ts.len()
        invariant
            i <= ts.len(),
            r@ == join_chars(ts.deep_view().take(i as int), sep@),
        decreases ts.len() - i,
    {
        if i > 0 {
            r.append(sep);
        }
        r.append(ts[i].as_str());
        proof {
            let tv = ts.deep_view();
            assert(tv.take(i as int).push(tv[i as int]) =~= tv.take(i as int + 1));
            lemma_join_push(tv.take(i as int), sep@, tv[i as int]);
        }
        i = i + 1;
    }
    proof {
        assert(ts.deep_view().take(ts.len() as int) =~= ts.deep_view());
    }
    r
}

// ---------------------------------------------------------------------------
// Prefix / suffix tests
// ---------------------------------------------------------------------------

/// Whether `t` is a suffix of `s`.
pub open spec fn ends_with_chars(s: Seq<char>, t: Seq<char>) -> bool {
    s.len() >= t.len() && s.skip(s.len() - t.len()) == t
}

/// Suffix test on text.
pub fn str_ends_with(s: &str, t: &str) -> (r: bool)
    ensures
        r == ends_with_chars(s@, t@),
{
    let n = s.unicode_len();
    let m = t.unicode_len();
    if m > n {
        return false;
    }
    let mut j: usize = 0;
    while j < m
        invariant
            n == s@.len(),
            m == t@.len(),
            m <= n,
            j <= m,
            forall|k: int| 0 <= k < j ==> s@[n - m + k] == t@[k],
        decreases m - j,
    {
        if s.get_char(n - m + j) != t.get_char(j) {
            proof {
                assert(s@.skip(n as int - m as int)[j as int] == s@[n - m + j as int]);
            }
            return false;
        }
        j = j + 1;
    }
    proof {
        assert(s@.skip(n as int - m as int) =~= t@);
    }
    true
}

/// Character-wise equality of two pieces of text.
pub fn str_eq(a: &str, b: &str) -> (r: bool)
    ensures
        r == (a@ == b@),
{
    let n = a.unicode_len();
    let m = b.unicode_len();
    if n != m {
        proof {
            assert(a@ != b@);
        }
        return false;
    }
    let mut i: usize = 0;
    while i < n
        invariant
            n == a@.len(),
            n == b@.len(),
            i <= n,
            forall|k: int| 0 <= k < i ==> a@[k] == b@[k],
        decreases n - i,
    {
        if a.get_char(i) != b.get_char(i) {
            return false;
        }
        i = i + 1;
    }
    proof {
        assert(a@ =~= b@);
    }
    true
}

/// Whether text begins with a given character.
pub open spec fn starts_with_char(s: Seq<char>, c: char) -> bool {
    s.len() > 0 && s[0] == c
}

/// Leading-character test.
pub fn str_starts_with_char(s: &str, c: char) -> (r: bool)
    ensures
        r == starts_with_char(s@, c),
{
    if s.unicode_len() == 0 {
        false
    } else {
        s.get_char(0) == c
    }
}

/// Whether text ends with a given character.
pub open spec fn ends_with_char(s: Seq<char>, c: char) -> bool {
    s.len() > 0 && s.last() == c
}

/// Trailing-character test.
pub fn str_ends_with_char(s: &str, c: char) -> (r: bool)
    ensures
        r == ends_with_char(s@, c),
{
    let n = s.unicode_len();
    if n == 0 {
        false
    } else {
        s.get_char(n - 1) == c
    }
}

// ---------------------------------------------------------------------------
// Path joining
// ---------------------------------------------------------------------------

/// `b` extended with the path fragment `p`: a single `/` separates the two
/// unless `b` is empty or already ends with one.
pub open spec fn join_path_chars(b: Seq<char>, p: Seq<char>) -> Seq<char> {
    if b.len() == 0 {
        p
    } else if b.last() == '/' {
        b + p
    } else {
        b + seq!['/'] + p
    }
}

/// Join a base path and a fragment with a single separator.
pub fn join_path(b: &str, p: &str) -> (r: String)
    ensures
        r@ == join_path_chars(b@, p@),
{
    if b.unicode_len() == 0 {
        p.to_owned()
    } else if str_ends_with_char(b, '/') {
        b.to_owned().concat(p)
    } else {
        proof {
            reveal_strlit("/");
        }
        let r = b.to_owned().concat("/").concat(p);
        proof {
            assert("/"@ =~= seq!['/']);
            assert(r@ =~= join_path_chars(b@, p@));
        }
        r
    }
}

// ---------------------------------------------------------------------------
// Small-number parsing
// ---------------------------------------------------------------------------

/// Whether a character is a decimal digit.
pub open spec fn is_dec_digit(c: char) -> bool {
    '0' <= c <= '9'
}

/// The numeric value of a decimal digit.
pub open spec fn dec_digit_val(c: char) -> nat {
    (c as nat - '0' as nat) as nat
}

/// The value of a digit string read left to right onto an accumulator.
pub open spec fn dec_val_acc(s: Seq<char>, a: nat) -> nat
    decreases s.len(),
{
    if s.len() == 0 {
        a
    } else {
        dec_val_acc(s.drop_first(), a * 10 + dec_digit_val(s[0]))
    }
}

/// The numeric value of a digit string.
pub open spec fn dec_val(s: Seq<char>) -> nat {
    dec_val_acc(s, 0)
}

/// Whether every character of `s` is a decimal digit.
pub open spec fn all_dec_digits(s: Seq<char>) -> bool {
    forall|i: int| 0 <= i < s.len() ==> is_dec_digit(#[trigger] s[i])
}

/// The digits of a number string, after any leading `+`.
pub open spec fn u8_digits(s: Seq<char>) -> Seq<char> {
    if s.len() > 0 && s[0] == '+' {
        s.drop_first()
    } else {
        s
    }
}

/// A digit string, with an optional leading `+`, whose value fits in `u8`.
pub open spec fn is_u8_str(s: Seq<char>) -> bool {
    u8_digits(s).len() > 0 && all_dec_digits(u8_digits(s)) && dec_val(u8_digits(s)) <= 255
}

/// The `u8` value of such a string.
pub open spec fn u8_str_val(s: Seq<char>) -> nat {
    dec_val(u8_digits(s))
}

proof fn lemma_dec_val_acc_ge(s: Seq<char>, a: nat)
    ensures
        dec_val_acc(s, a) >= a,
    decreases s.len(),
{
    if s.len() > 0 {
        lemma_dec_val_acc_ge(s.drop_first(), a * 10 + dec_digit_val(s[0]));
    }
}

/// Parse the decimal value of a digit string into a `u8`.
///
/// Returns `None` when the text is not one or more digits, optionally after a
/// leading `+`, or when the value exceeds 255.
pub fn parse_u8(s: &str) -> (r: Option<u8>)
    ensures
        r is Some <==> is_u8_str(s@),
        r matches Some(v) ==> v as nat == u8_str_val(s@),
{
    let n = s.unicode_len();
    let start: usize = if n > 0 && s.get_char(0) == '+' {
        1
    } else {
        0
    };
    let ghost d = u8_digits(s@);
    proof {
        assert(d =~= s@.subrange(start as int, n as int));
    }
    if start >= n {
        return None;
    }
    let mut acc: u32 = 0;
    let mut j: usize = start;
    while j < n
        invariant
            n == s@.len(),
            start < n,
            start <= j <= n,
            d == u8_digits(s@),
            d =~= s@.subrange(start as int, n as int),
            acc <= 255,
            dec_val(d) == dec_val_acc(s@.subrange(j as int, n as int), acc as nat),
            forall|k: int| start <= k < j ==> is_dec_digit(#[trigger] s@[k]),
        decreases n - j,
    {
        let c = s.get_char(j);
        if !('0' <= c && c <= '9') {
            proof {
                assert(d[j - start] == s@[j as int]);
                assert(!all_dec_digits(d)) by {
                    assert(!is_dec_digit(d[j - start]));
                }
            }
            return None;
        }
        proof {
            let rest = s@.subrange(j as int, n as int);
            assert(rest[0] == s@[j as int]);
            assert(rest.drop_first() =~= s@.subrange(j as int + 1, n as int));
            assert(dec_digit_val(c) == (c as u32 - '0' as u32) as nat);
        }
        acc = acc * 10 + (c as u32 - '0' as u32);
        j = j + 1;
        if acc > 255 {
            proof {
                lemma_dec_val_acc_ge(s@.subrange(j as int, n as int), acc as nat);
                assert(dec_val(d) > 255);
            }
            return None;
        }
    }
    proof {
        assert(s@.subrange(n as int, n as int).len() == 0);
        assert(all_dec_digits(d)) by {
            assert(forall|k: int| 0 <= k < d.len() ==> d[k] == s@[k + start] && is_dec_digit(
                #[trigger] d[k],
            ));
        }
    }
    Some(acc as u8)
}

} // verus!
