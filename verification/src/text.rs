//! Character-level machinery for the crate's JSON framing: escaping, decimal
//! numbers, literal matching, and the recursive parsers that the typed
//! serializers in the rest of the crate are built from.
//!
//! All executable code here works on `Vec<char>` buffers; the two trusted
//! conversions at the bottom bridge to `String`.

use vstd::prelude::*;

verus! {

// ---------------------------------------------------------------------------
// character classes
// ---------------------------------------------------------------------------

pub open spec fn is_ws(c: char) -> bool {
    c == ' ' || c == '\t' || c == '\n' || c == '\r'
}

pub open spec fn is_digit(c: char) -> bool {
    48 <= (c as u32) <= 57
}

pub open spec fn digit_val(c: char) -> int {
    (c as u32) - 48
}

pub open spec fn is_hex_lower(c: char) -> bool {
    is_digit(c) || (97 <= (c as u32) <= 102)
}

pub open spec fn hex_val(c: char) -> int {
    if is_digit(c) {
        digit_val(c)
    } else {
        (c as u32) - 87
    }
}

/// The lower-case hexadecimal digit for a value below 16.
pub open spec fn hex_char(d: int) -> char {
    if d < 10 {
        ((48 + d) as u8) as char
    } else {
        ((87 + d) as u8) as char
    }
}

/// The decimal digit character for a value below 10.
pub open spec fn digit_char(d: int) -> char {
    ((48 + d) as u8) as char
}

pub proof fn lemma_hex_char_round(d: int)
    requires
        0 <= d < 16,
    ensures
        is_hex_lower(hex_char(d)),
        hex_val(hex_char(d)) == d,
        !is_ws(hex_char(d)),
{
}

// ---------------------------------------------------------------------------
// JSON string escaping
// ---------------------------------------------------------------------------

/// How one character is written inside a JSON string: quote and backslash get
/// a backslash escape, control characters a `\u00XX` escape, everything else
/// stands as it is.
pub open spec fn esc_char(c: char) -> Seq<char> {
    if c == '"' {
        seq!['\\', '"']
    } else if c == '\\' {
        seq!['\\', '\\']
    } else if (c as u32) < 32 {
        seq!['\\', 'u', '0', '0', hex_char(((c as u32) / 16) as int), hex_char(((c as u32) % 16) as int)]
    } else {
        seq![c]
    }
}

/// The escaped form of a whole string.
pub open spec fn esc(s: Seq<char>) -> Seq<char>
    decreases s.len(),
{
    if s.len() == 0 {
        Seq::empty()
    } else {
        esc_char(s[0]) + esc(s.drop_first())
    }
}

pub proof fn lemma_esc_concat(a: Seq<char>, b: Seq<char>)
    ensures
        esc(a + b) == esc(a) + esc(b),
    decreases a.len(),
{
    if a.len() == 0 {
        assert(a + b =~= b);
        assert(esc(a) + esc(b) =~= esc(b));
    } else {
        assert((a + b).drop_first() =~= a.drop_first() + b);
        lemma_esc_concat(a.drop_first(), b);
        assert(esc(a + b) =~= esc(a) + esc(b));
    }
}

pub proof fn lemma_esc_one(c: char)
    ensures
        esc(seq![c]) == esc_char(c),
{
    assert(seq![c].drop_first() =~= Seq::<char>::empty());
    assert(seq![c][0] == c);
    assert(esc(Seq::<char>::empty()) == Seq::<char>::empty());
    assert(esc(seq![c]) == esc_char(c) + Seq::<char>::empty());
    assert(esc_char(c) + Seq::<char>::empty() =~= esc_char(c));
}

// ---------------------------------------------------------------------------
// decimal rendering of u64
// ---------------------------------------------------------------------------

/// The decimal digits of `n`, most significant first.
pub open spec fn dec_digits(n: nat) -> Seq<char>
    decreases n,
{
    if n < 10 {
        seq![digit_char(n as int)]
    } else {
        dec_digits(n / 10) + seq![digit_char((n % 10) as int)]
    }
}

pub proof fn lemma_dec_digits_all_digits(n: nat)
    ensures
        dec_digits(n).len() >= 1,
        forall|k: int| 0 <= k < dec_digits(n).len() ==> is_digit(#[trigger] dec_digits(n)[k]),
    decreases n,
{
    if n < 10 {
    } else {
        lemma_dec_digits_all_digits(n / 10);
    }
}

// ---------------------------------------------------------------------------
// whitespace
// ---------------------------------------------------------------------------

/// The first position at or after `i` that does not hold whitespace.
pub open spec fn skip_ws(s: Seq<char>, i: int) -> int
    decreases s.len() - i,
{
    if 0 <= i < s.len() && is_ws(s[i]) {
        skip_ws(s, i + 1)
    } else {
        i
    }
}


// ---------------------------------------------------------------------------
// parsing: string bodies
// ---------------------------------------------------------------------------

/// Parses the inside of a JSON string starting at `i` (the opening quote is
/// already consumed), up to and including the closing quote. Returns the
/// unescaped content and the position after the closing quote. Only the
/// escapes that `esc_char` produces are accepted.
pub open spec fn parse_string_body(s: Seq<char>, i: int) -> Option<(Seq<char>, int)>
    decreases s.len() - i,
{
    if !(0 <= i < s.len()) {
        None
    } else if s[i] == '"' {
        Some((Seq::empty(), i + 1))
    } else if s[i] == '\\' {
        if i + 1 < s.len() && (s[i + 1] == '"' || s[i + 1] == '\\') {
            match parse_string_body(s, i + 2) {
                Some((t, j)) => Some((seq![s[i + 1]] + t, j)),
                None => None,
            }
        } else if i + 5 < s.len() && s[i + 1] == 'u' && s[i + 2] == '0' && s[i + 3] == '0'
            && is_hex_lower(s[i + 4]) && is_hex_lower(s[i + 5]) {
            match parse_string_body(s, i + 6) {
                Some((t, j)) => Some(
                    (seq![((hex_val(s[i + 4]) * 16 + hex_val(s[i + 5])) as u32) as char] + t, j),
                ),
                None => None,
            }
        } else {
            None
        }
    } else {
        match parse_string_body(s, i + 1) {
            Some((t, j)) => Some((seq![s[i]] + t, j)),
            None => None,
        }
    }
}


/// Parsing inverts escaping: wherever the text holds the escaped form of `v`
/// followed by a closing quote, the parser recovers `v` exactly.
pub proof fn lemma_parse_esc(s: Seq<char>, i: int, v: Seq<char>)
    requires
        0 <= i,
        i + esc(v).len() + 1 <= s.len(),
        s.subrange(i, i + esc(v).len() + 1) == esc(v) + seq!['"'],
    ensures
        parse_string_body(s, i) == Some((v, i + esc(v).len() + 1)),
    decreases v.len(),
{
    if v.len() == 0 {
        assert(s[i] == (esc(v) + seq!['"'])[0]);
        assert(s[i] == '"');
        assert(parse_string_body(s, i) == Some((Seq::<char>::empty(), i + 1)));
        assert(v =~= Seq::<char>::empty());
    } else {
        let c = v[0];
        let v2 = v.drop_first();
        let k = esc_char(c).len() as int;
        assert(esc(v) == esc_char(c) + esc(v2));
        assert forall|t: int| 0 <= t < esc(v).len() + 1 implies s[i + t] == (esc(v)
            + seq!['"'])[t] by {
            assert(s.subrange(i, i + esc(v).len() + 1)[t] == s[i + t]);
        }
        assert forall|t: int| 0 <= t < k implies s[i + t] == esc_char(c)[t] by {
            assert(s[i + t] == (esc(v) + seq!['"'])[t]);
            assert((esc(v) + seq!['"'])[t] == esc(v)[t]);
            assert(esc(v)[t] == (esc_char(c) + esc(v2))[t]);
        }
        // the recursive call's precondition
        assert(s.subrange(i + k, i + k + esc(v2).len() + 1) =~= esc(v2) + seq!['"']) by {
            assert forall|t: int| 0 <= t < esc(v2).len() + 1 implies s.subrange(
                i + k,
                i + k + esc(v2).len() + 1,
            )[t] == (esc(v2) + seq!['"'])[t] by {
                assert(s[i + k + t] == (esc(v) + seq!['"'])[k + t]);
            }
        }
        lemma_parse_esc(s, i + k, v2);
        if c == '"' || c == '\\' {
            assert(s[i] == esc_char(c)[0] && s[i + 1] == esc_char(c)[1]);
            assert(s[i] == '\\' && s[i + 1] == c);
            assert(parse_string_body(s, i) == Some((seq![c] + v2, i + esc(v).len() + 1)));
        } else if (c as u32) < 32 {
            assert(s[i] == esc_char(c)[0] && s[i + 1] == esc_char(c)[1] && s[i + 2] == esc_char(
                c,
            )[2] && s[i + 3] == esc_char(c)[3] && s[i + 4] == esc_char(c)[4] && s[i + 5]
                == esc_char(c)[5]);
            assert(s[i] == '\\' && s[i + 1] == 'u' && s[i + 2] == '0' && s[i + 3] == '0');
            assert(s[i + 4] == hex_char(((c as u32) / 16) as int) && s[i + 5] == hex_char(
                ((c as u32) % 16) as int,
            ));
            lemma_hex_char_round(((c as u32) / 16) as int);
            lemma_hex_char_round(((c as u32) % 16) as int);
            assert(s[i + 1] != '"' && s[i + 1] != '\\');
            assert(hex_val(s[i + 4]) * 16 + hex_val(s[i + 5]) == (c as u32) as int);
            assert(((hex_val(s[i + 4]) * 16 + hex_val(s[i + 5])) as u32) == c as u32);
            vstd::utf8::char_u32_cast(c, c as u32);
            assert((((hex_val(s[i + 4]) * 16 + hex_val(s[i + 5])) as u32) as char) == c);
            assert(parse_string_body(s, i) == Some((seq![c] + v2, i + esc(v).len() + 1)));
        } else {
            assert(s[i] == esc_char(c)[0]);
            assert(s[i] == c && c != '"' && c != '\\');
            assert(parse_string_body(s, i) == Some((seq![c] + v2, i + esc(v).len() + 1)));
        }
        assert(seq![c] + v2 =~= v);
    }
}

// ---------------------------------------------------------------------------
// parsing: unsigned decimal numbers
// ---------------------------------------------------------------------------

/// Folds the digits of `d` onto the accumulator `a`, left to right.
pub open spec fn extend_val(a: int, d: Seq<char>) -> int
    decreases d.len(),
{
    if d.len() == 0 {
        a
    } else {
        extend_val(a * 10 + digit_val(d.first()), d.drop_first())
    }
}

pub proof fn lemma_extend_val_monotone(a: int, d: Seq<char>)
    requires
        a >= 0,
        forall|k: int| 0 <= k < d.len() ==> is_digit(#[trigger] d[k]),
    ensures
        extend_val(a, d) >= a,
    decreases d.len(),
{
    if d.len() > 0 {
        lemma_extend_val_monotone(a * 10 + digit_val(d.first()), d.drop_first());
    }
}

pub proof fn lemma_extend_val_snoc(a: int, d: Seq<char>, c: char)
    ensures
        extend_val(a, d + seq![c]) == extend_val(a, d) * 10 + digit_val(c),
    decreases d.len(),
{
    if d.len() == 0 {
        assert((d + seq![c]).first() == c);
        assert((d + seq![c]).drop_first() =~= Seq::<char>::empty());
        assert(extend_val(a, d + seq![c]) == extend_val(
            a * 10 + digit_val(c),
            Seq::<char>::empty(),
        ));
        assert(extend_val(a, d) == a);
    } else {
        assert((d + seq![c]).first() == d.first());
        assert((d + seq![c]).drop_first() =~= d.drop_first() + seq![c]);
        lemma_extend_val_snoc(a * 10 + digit_val(d.first()), d.drop_first(), c);
    }
}

pub proof fn lemma_extend_val_dec_digits(n: nat)
    ensures
        extend_val(0, dec_digits(n)) == n,
    decreases n,
{
    if n < 10 {
        assert(dec_digits(n).first() == digit_char(n as int));
        assert(dec_digits(n).drop_first() =~= Seq::<char>::empty());
        assert(extend_val(0, dec_digits(n)) == extend_val(
            0 * 10 + digit_val(digit_char(n as int)),
            Seq::<char>::empty(),
        ));
        assert(digit_val(digit_char(n as int)) == n);
    } else {
        lemma_extend_val_dec_digits(n / 10);
        lemma_extend_val_snoc(0, dec_digits(n / 10), digit_char((n % 10) as int));
        assert(digit_val(digit_char((n % 10) as int)) == n % 10);
        assert(extend_val(0, dec_digits(n)) == (n / 10) * 10 + (n % 10));
    }
}

/// Consumes the maximal digit run starting at `i`, folding it onto `acc`;
/// fails if the value would not fit in a `u64`.
pub open spec fn parse_u64_rec(s: Seq<char>, i: int, acc: u64) -> Option<(u64, int)>
    decreases s.len() - i,
{
    if 0 <= i < s.len() && is_digit(s[i]) {
        if acc * 10 + digit_val(s[i]) <= u64::MAX {
            parse_u64_rec(s, i + 1, (acc * 10 + digit_val(s[i])) as u64)
        } else {
            None
        }
    } else {
        Some((acc, i))
    }
}

/// Parses a decimal `u64` at `i`: at least one digit, value within range.
pub open spec fn parse_u64_at(s: Seq<char>, i: int) -> Option<(u64, int)> {
    if 0 <= i < s.len() && is_digit(s[i]) {
        parse_u64_rec(s, i, 0)
    } else {
        None
    }
}


pub proof fn lemma_parse_digit_run(s: Seq<char>, i: int, j: int, acc: u64)
    requires
        0 <= i <= j <= s.len(),
        forall|k: int| i <= k < j ==> is_digit(#[trigger] s[k]),
        j == s.len() || !is_digit(s[j]),
        extend_val(acc as int, s.subrange(i, j)) <= u64::MAX,
    ensures
        parse_u64_rec(s, i, acc) == Some(
            ((extend_val(acc as int, s.subrange(i, j)) as u64, j)),
        ),
    decreases j - i,
{
    let d = s.subrange(i, j);
    if i == j {
        assert(d.len() == 0);
        if i < s.len() {
            assert(!is_digit(s[i]));
        }
    } else {
        assert(is_digit(s[i]));
        assert(d.first() == s[i]);
        let acc2 = acc * 10 + digit_val(s[i]);
        assert(d.drop_first() =~= s.subrange(i + 1, j));
        assert(extend_val(acc as int, d) == extend_val(acc2, s.subrange(i + 1, j)));
        assert forall|k: int| 0 <= k < s.subrange(i + 1, j).len() implies is_digit(
            #[trigger] s.subrange(i + 1, j)[k],
        ) by {
            assert(s.subrange(i + 1, j)[k] == s[i + 1 + k]);
        }
        lemma_extend_val_monotone(acc2, s.subrange(i + 1, j));
        assert(acc2 <= u64::MAX);
        lemma_parse_digit_run(s, i + 1, j, acc2 as u64);
    }
}

/// Parsing inverts decimal rendering: wherever the text holds the digits of
/// `n` followed by a non-digit (or the end), the parser recovers `n`.
pub proof fn lemma_parse_dec_digits(s: Seq<char>, i: int, n: u64)
    requires
        0 <= i,
        i + dec_digits(n as nat).len() <= s.len(),
        s.subrange(i, i + dec_digits(n as nat).len()) == dec_digits(n as nat),
        i + dec_digits(n as nat).len() == s.len() || !is_digit(
            s[i + dec_digits(n as nat).len()],
        ),
    ensures
        parse_u64_at(s, i) == Some((n, i + dec_digits(n as nat).len())),
{
    let d = dec_digits(n as nat);
    let j = i + d.len();
    lemma_dec_digits_all_digits(n as nat);
    assert forall|k: int| i <= k < j implies is_digit(#[trigger] s[k]) by {
        assert(s[k] == s.subrange(i, j)[k - i]);
    }
    lemma_extend_val_dec_digits(n as nat);
    lemma_parse_digit_run(s, i, j, 0);
    assert(s[i] == s.subrange(i, j)[0]);
    assert(is_digit(s[i]));
}

// ---------------------------------------------------------------------------
// parsing: literals and punctuation
// ---------------------------------------------------------------------------

/// Succeeds when the text holds exactly `lit` at `i`, returning the position
/// after it.
pub open spec fn match_lit(s: Seq<char>, i: int, lit: Seq<char>) -> Option<int> {
    if 0 <= i && i + lit.len() <= s.len() && s.subrange(i, i + lit.len()) == lit {
        Some(i + lit.len())
    } else {
        None
    }
}

/// Skips whitespace, then expects the single character `c`.
pub open spec fn parse_sep(s: Seq<char>, i: int, c: char) -> Option<int> {
    let j = skip_ws(s, i);
    if j < s.len() && s[j] == c {
        Some(j + 1)
    } else {
        None
    }
}

// ---------------------------------------------------------------------------
// JSON values
// ---------------------------------------------------------------------------

/// A JSON string: quote, escaped content, quote.
pub open spec fn json_str(s: Seq<char>) -> Seq<char> {
    seq!['"'] + esc(s) + seq!['"']
}

/// An optional JSON string: `null` when absent.
pub open spec fn json_opt_str(o: Option<Seq<char>>) -> Seq<char> {
    match o {
        Option::None => "null"@,
        Option::Some(s) => json_str(s),
    }
}

/// Skips whitespace, then parses a JSON string.
pub open spec fn parse_json_string(s: Seq<char>, i: int) -> Option<(Seq<char>, int)> {
    let j = skip_ws(s, i);
    if j < s.len() && s[j] == '"' {
        parse_string_body(s, j + 1)
    } else {
        None
    }
}

/// Skips whitespace, then parses either `null` or a JSON string.
pub open spec fn parse_json_opt_string(s: Seq<char>, i: int) -> Option<(Option<Seq<char>>, int)> {
    let j = skip_ws(s, i);
    match match_lit(s, j, "null"@) {
        Some(j2) => Some((Option::None, j2)),
        None => if j < s.len() && s[j] == '"' {
            match parse_string_body(s, j + 1) {
                Some((t, k)) => Some((Option::Some(t), k)),
                None => None,
            }
        } else {
            None
        },
    }
}

/// Skips whitespace, then parses a decimal `u64`.
pub open spec fn parse_json_u64(s: Seq<char>, i: int) -> Option<(u64, int)> {
    parse_u64_at(s, skip_ws(s, i))
}

/// Skips whitespace, then expects the literal `key` (a quoted field name
/// together with its colon).
pub open spec fn parse_key(s: Seq<char>, i: int, key: Seq<char>) -> Option<int> {
    match_lit(s, skip_ws(s, i), key)
}

// ---------------------------------------------------------------------------
// positional inversion lemmas, used for the round-trip proofs
// ---------------------------------------------------------------------------


pub proof fn lemma_parse_sep_at(s: Seq<char>, i: int, c: char)
    requires
        0 <= i < s.len(),
        s[i] == c,
        !is_ws(c),
    ensures
        parse_sep(s, i, c) == Some(i + 1),
{
}

pub proof fn lemma_parse_key_at(s: Seq<char>, i: int, key: Seq<char>)
    requires
        0 <= i,
        key.len() > 0,
        !is_ws(key[0]),
        i + key.len() <= s.len(),
        s.subrange(i, i + key.len()) == key,
    ensures
        parse_key(s, i, key) == Some(i + key.len()),
{
    assert(s[i] == s.subrange(i, i + key.len())[0]);
    assert(skip_ws(s, i) == i);
}

pub proof fn lemma_parse_json_string_at(s: Seq<char>, i: int, v: Seq<char>)
    requires
        0 <= i,
        i + json_str(v).len() <= s.len(),
        s.subrange(i, i + json_str(v).len()) == json_str(v),
    ensures
        parse_json_string(s, i) == Some((v, i + json_str(v).len())),
{
    assert(s[i] == json_str(v)[0]) by {
        assert(s.subrange(i, i + json_str(v).len())[0] == s[i]);
    }
    assert(s[i] == '"');
    assert(skip_ws(s, i) == i);
    assert(s.subrange(i + 1, i + 1 + esc(v).len() + 1) =~= esc(v) + seq!['"']) by {
        assert forall|t: int| 0 <= t < esc(v).len() + 1 implies s.subrange(
            i + 1,
            i + 1 + esc(v).len() + 1,
        )[t] == (esc(v) + seq!['"'])[t] by {
            assert(s[i + 1 + t] == s.subrange(i, i + json_str(v).len())[1 + t]);
            assert((seq!['"'] + esc(v) + seq!['"'])[1 + t] == (esc(v) + seq!['"'])[t]);
        }
    }
    lemma_parse_esc(s, i + 1, v);
}

pub proof fn lemma_parse_json_opt_str_at(s: Seq<char>, i: int, o: Option<Seq<char>>)
    requires
        0 <= i,
        i + json_opt_str(o).len() <= s.len(),
        s.subrange(i, i + json_opt_str(o).len()) == json_opt_str(o),
    ensures
        parse_json_opt_string(s, i) == Some((o, i + json_opt_str(o).len())),
{
    reveal_strlit("null");
    match o {
        Option::None => {
            assert(s[i] == 'n') by {
                assert(s.subrange(i, i + 4)[0] == s[i]);
            }
            assert(skip_ws(s, i) == i);
            assert(match_lit(s, i, "null"@) == Some(i + 4));
        },
        Option::Some(v) => {
            assert(s[i] == json_str(v)[0]) by {
                assert(s.subrange(i, i + json_str(v).len())[0] == s[i]);
            }
            assert(s[i] == '"');
            assert(skip_ws(s, i) == i);
            assert(match_lit(s, i, "null"@) is None) by {
                if i + 4 <= s.len() && s.subrange(i, i + 4) == "null"@ {
                    assert(s.subrange(i, i + 4)[0] == 'n');
                }
            }
            lemma_parse_json_string_at(s, i, v);
        },
    }
}

pub proof fn lemma_parse_json_u64_at(s: Seq<char>, i: int, n: u64)
    requires
        0 <= i,
        i + dec_digits(n as nat).len() <= s.len(),
        s.subrange(i, i + dec_digits(n as nat).len()) == dec_digits(n as nat),
        i + dec_digits(n as nat).len() == s.len() || !is_digit(
            s[i + dec_digits(n as nat).len()],
        ),
    ensures
        parse_json_u64(s, i) == Some((n, i + dec_digits(n as nat).len())),
{
    lemma_dec_digits_all_digits(n as nat);
    assert(s[i] == dec_digits(n as nat)[0]) by {
        assert(s.subrange(i, i + dec_digits(n as nat).len())[0] == s[i]);
    }
    assert(is_digit(s[i]));
    assert(!is_ws(s[i]));
    assert(skip_ws(s, i) == i);
    lemma_parse_dec_digits(s, i, n);
}

// ---------------------------------------------------------------------------
// executable scanners for JSON values
// ---------------------------------------------------------------------------

/// Scans a JSON string, mirroring `parse_json_string`.
pub fn scan_json_string(v: &Vec<char>, i: usize) -> (r: Option<(Vec<char>, usize)>)
    requires
        i <= v.len(),
    ensures
        (match (r, parse_json_string(v@, i as int)) {
            (Some((c, j)), Some((sc, sj))) => c@ == sc && j as int == sj && j <= v.len(),
            (None, None) => true,
            _ => false,
        }),
{
    let j = scan_ws(v, i);
    if j < v.len() && v[j] == '"' {
        scan_string_body(v, j + 1)
    } else {
        None
    }
}

/// Scans `null` or a JSON string, mirroring `parse_json_opt_string`.
pub fn scan_json_opt_string(v: &Vec<char>, i: usize) -> (r: Option<(Option<Vec<char>>, usize)>)
    requires
        i <= v.len(),
    ensures
        (match (r, parse_json_opt_string(v@, i as int)) {
            (Some((c, j)), Some((sc, sj))) => j as int == sj && j <= v.len() && (match (c, sc) {
                (Some(cv), Some(scv)) => cv@ == scv,
                (None, None) => true,
                _ => false,
            }),
            (None, None) => true,
            _ => false,
        }),
{
    let j = scan_ws(v, i);
    match scan_lit(v, j, "null") {
        Some(j2) => Some((None, j2)),
        None => {
            if j < v.len() && v[j] == '"' {
                match scan_string_body(v, j + 1) {
                    Some((t, k)) => Some((Some(t), k)),
                    None => None,
                }
            } else {
                None
            }
        },
    }
}

/// Scans a decimal `u64`, mirroring `parse_json_u64`.
pub fn scan_json_u64(v: &Vec<char>, i: usize) -> (r: Option<(u64, usize)>)
    requires
        i <= v.len(),
    ensures
        (match (r, parse_json_u64(v@, i as int)) {
            (Some((n, j)), Some((sn, sj))) => n == sn && j as int == sj && j <= v.len(),
            (None, None) => true,
            _ => false,
        }),
{
    let j = scan_ws(v, i);
    scan_u64(v, j)
}

/// Scans a field key, mirroring `parse_key`.
pub fn scan_key(v: &Vec<char>, i: usize, key: &str) -> (r: Option<usize>)
    requires
        i <= v.len(),
    ensures
        (match r {
            Some(j) => parse_key(v@, i as int, key@) == Some(j as int) && j <= v.len(),
            None => parse_key(v@, i as int, key@) is None,
        }),
{
    let j = scan_ws(v, i);
    scan_lit(v, j, key)
}

// ---------------------------------------------------------------------------
// executable emitters
// ---------------------------------------------------------------------------

/// Appends the characters of `s` to the buffer.
pub fn append_str(out: &mut Vec<char>, s: &str)
    ensures
        final(out)@ == old(out)@ + s@,
{
    let n = s.unicode_len();
    let mut k: usize = 0;
    while k < n
        invariant
            k <= n,
            n == s@.len(),
            out@ == old(out)@ + s@.take(k as int),
        decreases n - k,
    {
        let c = s.get_char(k);
        out.push(c);
        assert(s@.take(k as int).push(s@[k as int]) =~= s@.take(k as int + 1));
        k = k + 1;
    }
    assert(s@.take(n as int) =~= s@);
}

fn hex_char_exec(d: u32) -> (r: char)
    requires
        d < 16,
    ensures
        r == hex_char(d as int),
{
    if d < 10 {
        (48 + d as u8) as char
    } else {
        (87 + d as u8) as char
    }
}

/// Appends one character in its JSON-escaped form.
pub fn append_escaped_char(out: &mut Vec<char>, c: char)
    ensures
        final(out)@ == old(out)@ + esc_char(c),
{
    if c == '"' {
        out.push('\\');
        out.push('"');
        assert(out@ =~= old(out)@ + esc_char(c));
    } else if c == '\\' {
        out.push('\\');
        out.push('\\');
        assert(out@ =~= old(out)@ + esc_char(c));
    } else if (c as u32) < 32 {
        out.push('\\');
        out.push('u');
        out.push('0');
        out.push('0');
        out.push(hex_char_exec((c as u32) / 16));
        out.push(hex_char_exec((c as u32) % 16));
        assert(out@ =~= old(out)@ + esc_char(c));
    } else {
        out.push(c);
        assert(out@ =~= old(out)@ + esc_char(c));
    }
}

/// Appends a full JSON string: opening quote, escaped content, closing quote.
pub fn append_json_string(out: &mut Vec<char>, s: &str)
    ensures
        final(out)@ == old(out)@ + seq!['"'] + esc(s@) + seq!['"'],
{
    out.push('"');
    let n = s.unicode_len();
    let mut k: usize = 0;
    while k < n
        invariant
            k <= n,
            n == s@.len(),
            out@ == old(out)@ + seq!['"'] + esc(s@.take(k as int)),
        decreases n - k,
    {
        let c = s.get_char(k);
        append_escaped_char(out, c);
        proof {
            assert(s@.take(k as int + 1) =~= s@.take(k as int) + seq![s@[k as int]]);
            lemma_esc_concat(s@.take(k as int), seq![s@[k as int]]);
            lemma_esc_one(s@[k as int]);
        }
        k = k + 1;
    }
    assert(s@.take(n as int) =~= s@);
    out.push('"');
}

/// Appends the decimal digits of `n`.
pub fn append_u64(out: &mut Vec<char>, n: u64)
    ensures
        final(out)@ == old(out)@ + dec_digits(n as nat),
    decreases n,
{
    if n < 10 {
        out.push((48 + n as u8) as char);
        assert(out@ =~= old(out)@ + dec_digits(n as nat));
    } else {
        append_u64(out, n / 10);
        out.push((48 + (n % 10) as u8) as char);
        assert(out@ =~= old(out)@ + dec_digits(n as nat));
    }
}

// ---------------------------------------------------------------------------
// executable scanners
// ---------------------------------------------------------------------------

fn is_ws_exec(c: char) -> (r: bool)
    ensures
        r == is_ws(c),
{
    c == ' ' || c == '\t' || c == '\n' || c == '\r'
}

/// Advances past whitespace.
pub fn scan_ws(v: &Vec<char>, i: usize) -> (r: usize)
    requires
        i <= v.len(),
    ensures
        r as int == skip_ws(v@, i as int),
        i <= r <= v.len(),
    decreases v.len() - i,
{
    if i < v.len() && is_ws_exec(v[i]) {
        scan_ws(v, i + 1)
    } else {
        i
    }
}

/// Scans a JSON string body, mirroring `parse_string_body`.
pub fn scan_string_body(v: &Vec<char>, i: usize) -> (r: Option<(Vec<char>, usize)>)
    requires
        i <= v.len(),
    ensures
        (match (r, parse_string_body(v@, i as int)) {
            (Some((c, j)), Some((sc, sj))) => c@ == sc && j as int == sj && j <= v.len(),
            (None, None) => true,
            _ => false,
        }),
    decreases v.len() - i,
{
    if i >= v.len() {
        return None;
    }
    let c = v[i];
    if c == '"' {
        let empty: Vec<char> = Vec::new();
        return Some((empty, i + 1));
    }
    if c == '\\' {
        if v.len() - i > 1 && (v[i + 1] == '"' || v[i + 1] == '\\') {
            match scan_string_body(v, i + 2) {
                Some((mut t, j)) => {
                    let ghost t0 = t@;
                    let e = v[i + 1];
                    t.insert(0, e);
                    assert(t@ =~= seq![v@[i as int + 1]] + t0);
                    Some((t, j))
                },
                None => None,
            }
        } else if v.len() - i > 5 && v[i + 1] == 'u' && v[i + 2] == '0' && v[i + 3] == '0'
            && is_hex_exec(v[i + 4]) && is_hex_exec(v[i + 5]) {
            let code: u32 = hex_val_exec(v[i + 4]) * 16 + hex_val_exec(v[i + 5]);
            match scan_string_body(v, i + 6) {
                Some((mut t, j)) => {
                    let ghost t0 = t@;
                    let ch = (code as u8) as char;
                    proof {
                        assert(ch as u32 == code);
                        vstd::utf8::char_u32_cast(ch, code);
                    }
                    t.insert(0, ch);
                    assert(t@ =~= seq![((hex_val(v@[i as int + 4]) * 16 + hex_val(
                        v@[i as int + 5],
                    )) as u32) as char] + t0);
                    Some((t, j))
                },
                None => None,
            }
        } else {
            None
        }
    } else {
        match scan_string_body(v, i + 1) {
            Some((mut t, j)) => {
                let ghost t0 = t@;
                t.insert(0, c);
                assert(t@ =~= seq![v@[i as int]] + t0);
                Some((t, j))
            },
            None => None,
        }
    }
}

fn is_hex_exec(c: char) -> (r: bool)
    ensures
        r == is_hex_lower(c),
{
    let b = c as u32;
    (48 <= b && b <= 57) || (97 <= b && b <= 102)
}

fn hex_val_exec(c: char) -> (r: u32)
    requires
        is_hex_lower(c),
    ensures
        r as int == hex_val(c),
        r < 16,
{
    let b = c as u32;
    if b <= 57 {
        b - 48
    } else {
        b - 87
    }
}

fn is_digit_exec(c: char) -> (r: bool)
    ensures
        r == is_digit(c),
{
    let b = c as u32;
    48 <= b && b <= 57
}

fn scan_u64_rec(v: &Vec<char>, i: usize, acc: u64) -> (r: Option<(u64, usize)>)
    requires
        i <= v.len(),
    ensures
        (match (r, parse_u64_rec(v@, i as int, acc)) {
            (Some((n, j)), Some((sn, sj))) => n == sn && j as int == sj && j <= v.len(),
            (None, None) => true,
            _ => false,
        }),
    decreases v.len() - i,
{
    if i < v.len() && is_digit_exec(v[i]) {
        let d = (v[i] as u32 - 48) as u64;
        match acc.checked_mul(10) {
            Some(m) => match m.checked_add(d) {
                Some(acc2) => scan_u64_rec(v, i + 1, acc2),
                None => None,
            },
            None => None,
        }
    } else {
        Some((acc, i))
    }
}

/// Scans a decimal `u64`, mirroring `parse_u64_at`.
pub fn scan_u64(v: &Vec<char>, i: usize) -> (r: Option<(u64, usize)>)
    requires
        i <= v.len(),
    ensures
        (match (r, parse_u64_at(v@, i as int)) {
            (Some((n, j)), Some((sn, sj))) => n == sn && j as int == sj && j <= v.len(),
            (None, None) => true,
            _ => false,
        }),
{
    if i < v.len() && is_digit_exec(v[i]) {
        scan_u64_rec(v, i, 0)
    } else {
        None
    }
}

/// Matches the literal `lit` at `i`, mirroring `match_lit`.
pub fn scan_lit(v: &Vec<char>, i: usize, lit: &str) -> (r: Option<usize>)
    requires
        i <= v.len(),
    ensures
        (match r {
            Some(j) => match_lit(v@, i as int, lit@) == Some(j as int) && j <= v.len(),
            None => match_lit(v@, i as int, lit@) is None,
        }),
{
    let n = lit.unicode_len();
    if v.len() - i < n {
        return None;
    }
    let mut k: usize = 0;
    while k < n
        invariant
            k <= n,
            n == lit@.len(),
            i + n <= v.len(),
            forall|t: int| 0 <= t < k ==> v@[i + t] == lit@[t],
        decreases n - k,
    {
        let a = v[i + k];
        let b = lit.get_char(k);
        if a != b {
            proof {
                let sub = v@.subrange(i as int, i as int + lit@.len());
                assert(sub[k as int] == v@[i + k]);
                assert(sub != lit@);
            }
            return None;
        }
        k = k + 1;
    }
    assert(v@.subrange(i as int, i as int + lit@.len()) =~= lit@);
    Some(i + n)
}

/// Skips whitespace and expects the single character `c`, mirroring
/// `parse_sep`.
pub fn scan_sep(v: &Vec<char>, i: usize, c: char) -> (r: Option<usize>)
    requires
        i <= v.len(),
    ensures
        (match r {
            Some(j) => parse_sep(v@, i as int, c) == Some(j as int) && j <= v.len(),
            None => parse_sep(v@, i as int, c) is None,
        }),
{
    let j = scan_ws(v, i);
    if j < v.len() && v[j] == c {
        Some(j + 1)
    } else {
        None
    }
}

/// Copies the characters of `v` between `a` and `b` into a fresh buffer.
pub fn vec_slice(v: &Vec<char>, a: usize, b: usize) -> (r: Vec<char>)
    requires
        a <= b <= v.len(),
    ensures
        r@ == v@.subrange(a as int, b as int),
{
    let mut out: Vec<char> = Vec::new();
    let mut k: usize = a;
    while k < b
        invariant
            a <= k <= b <= v.len(),
            out@ == v@.subrange(a as int, k as int),
        decreases b - k,
    {
        out.push(v[k]);
        assert(out@ =~= v@.subrange(a as int, k + 1));
        k = k + 1;
    }
    out
}

// ---------------------------------------------------------------------------
// trusted conversions between String and Vec<char>
// ---------------------------------------------------------------------------

/// Relies on `str::chars`: yields exactly the characters of the string, in
/// order.
#[verifier::external_body]
pub fn str_chars(s: &str) -> (r: Vec<char>)
    ensures
        r@ == s@,
{
    s.chars().collect()
}

/// Relies on `String: FromIterator<char>`: builds the string holding exactly
/// these characters, in order.
#[verifier::external_body]
pub fn chars_string(v: &Vec<char>) -> (r: String)
    ensures
        r@ == v@,
{
    v.iter().collect()
}

} // verus!
