use vstd::prelude::*;

use crate::error::JastorError;
use vstd::slice::slice_index_get;
use crate::event::raw::EventType;

verus! {

// ---------------------------------------------------------------------------
// Views of token lists
// ---------------------------------------------------------------------------

/// The character sequences of a list of owned strings.
pub open spec fn views_of(s: Seq<String>) -> Seq<Seq<char>> {
    s.map_values(|t: String| t@)
}

pub proof fn lemma_views_of_push(s: Seq<String>, x: String)
    ensures
        views_of(s.push(x)) == views_of(s).push(x@),
{
    assert(views_of(s.push(x)) =~= views_of(s).push(x@));
}

pub proof fn lemma_views_of_subrange(s: Seq<String>, i: int, j: int)
    requires
        0 <= i <= j <= s.len(),
    ensures
        views_of(s.subrange(i, j)) == views_of(s).subrange(i, j),
{
    assert(views_of(s.subrange(i, j)) =~= views_of(s).subrange(i, j));
}

// ---------------------------------------------------------------------------
// The tokenizer
// ---------------------------------------------------------------------------
//
// One line's argument portion is split into fields at commas, except that a
// comma inside a quoted span does not split, and a bracket or parenthesis
// opens a span that is copied through verbatim (nested openers included)
// until it closes.  Quote characters toggle the quoted state and are not kept;
// every character of a bracket span, the closing bracket included, is kept.

/// The scanning state of the tokenizer after some prefix of the input.
pub ghost struct TokenizerState {
    /// Whether an unmatched quote character has been seen.
    pub in_quotes: bool,
    /// How many bracket or parenthesis spans are open.
    pub depth: nat,
    /// The characters accumulated for the field under construction.
    pub current: Seq<char>,
    /// The fields already finished, in order.
    pub fields: Seq<Seq<char>>,
}

pub open spec fn tokenizer_init() -> TokenizerState {
    TokenizerState {
        in_quotes: false,
        depth: 0,
        current: Seq::empty(),
        fields: Seq::empty(),
    }
}

/// One scanning step of the tokenizer.
pub open spec fn tokenizer_step(st: TokenizerState, c: char) -> TokenizerState {
    if st.depth > 0 {
        let depth = if c == ']' || c == ')' {
            (st.depth - 1) as nat
        } else if c == '[' || c == '(' {
            st.depth + 1
        } else {
            st.depth
        };
        TokenizerState { depth, current: st.current.push(c), ..st }
    } else if c == ',' && !st.in_quotes {
        TokenizerState { current: Seq::empty(), fields: st.fields.push(st.current), ..st }
    } else if c == '[' || c == '(' {
        TokenizerState { depth: 1, current: st.current.push(c), ..st }
    } else if c == '"' {
        TokenizerState { in_quotes: !st.in_quotes, ..st }
    } else {
        TokenizerState { current: st.current.push(c), ..st }
    }
}

/// The tokenizer state after scanning all of `s`.
pub open spec fn tokenizer_run(s: Seq<char>) -> TokenizerState
    decreases s.len(),
{
    if s.len() == 0 {
        tokenizer_init()
    } else {
        tokenizer_step(tokenizer_run(s.drop_last()), s.last())
    }
}

/// The fields the tokenizer yields for `s`: the finished fields followed by
/// the final accumulated field, which is flushed even without a trailing
/// comma.
pub open spec fn spec_tokenize(s: Seq<char>) -> Seq<Seq<char>> {
    let st = tokenizer_run(s);
    st.fields.push(st.current)
}

/// How many commas of `s` split fields: those scanned outside quoted spans
/// and outside bracket or parenthesis spans.
pub open spec fn spec_top_level_commas(s: Seq<char>) -> nat
    decreases s.len(),
{
    if s.len() == 0 {
        0
    } else {
        let st = tokenizer_run(s.drop_last());
        spec_top_level_commas(s.drop_last()) + if s.last() == ',' && st.depth == 0
            && !st.in_quotes {
            1 as nat
        } else {
            0 as nat
        }
    }
}

proof fn lemma_finished_field_count(s: Seq<char>)
    ensures
        tokenizer_run(s).fields.len() == spec_top_level_commas(s),
    decreases s.len(),
{
    if s.len() > 0 {
        lemma_finished_field_count(s.drop_last());
    }
}

/// Law: for every input, the tokenizer returns exactly one more field than
/// the number of top-level commas — the commas outside quoted spans and
/// outside balanced bracket or parenthesis spans at any depth.
pub proof fn lemma_tokenize_field_count(s: Seq<char>)
    ensures
        spec_tokenize(s).len() == spec_top_level_commas(s) + 1,
{
    lemma_finished_field_count(s);
}

// ---------------------------------------------------------------------------
// Exec helpers on strings
// ---------------------------------------------------------------------------

/// Relies on String::push: appends the character at the end of the string.
#[verifier::external_body]
fn push_char(s: &mut String, c: char)
    ensures
        final(s)@ == old(s)@.push(c),
{
    s.push(c);
}

/// Character-for-character equality of two string slices.
pub fn str_eq_str(a: &str, b: &str) -> (r: bool)
    ensures
        r == (a@ == b@),
{
    let n = a.unicode_len();
    if n != b.unicode_len() {
        return false;
    }
    let mut i: usize = 0;
    while i < n
        invariant
            i <= n,
            n == a@.len(),
            n == b@.len(),
            forall|k: int| 0 <= k < i ==> a@[k] == b@[k],
        decreases n - i,
    {
        if a.get_char(i) != b.get_char(i) {
            return false;
        }
        i += 1;
    }
    proof {
        assert(a@ =~= b@);
    }
    true
}

// ---------------------------------------------------------------------------
// The argument handler: owns the tokenized fields of one line
// ---------------------------------------------------------------------------

/// The ordered raw fields of one line's argument portion.
#[derive(Debug, Clone)]
pub struct ArgumentHandler {
    pub params: Vec<String>,
}

impl ArgumentHandler {
    /// Tokenizes the argument portion of a line into its top-level fields.
    pub fn new(args: &str) -> (r: Self)
        ensures
            views_of(r.params@) == spec_tokenize(args@),
    {
        let n = args.unicode_len();
        let mut params: Vec<String> = Vec::new();
        let mut param = String::new();
        let mut inside_string = false;
        let mut depth: usize = 0;
        let mut i: usize = 0;
        while i < n
            invariant
                i <= n,
                n == args@.len(),
                depth <= i,
                ({
                    let st = tokenizer_run(args@.subrange(0, i as int));
                    &&& st.in_quotes == inside_string
                    &&& st.depth == depth as nat
                    &&& st.current == param@
                    &&& st.fields == views_of(params@)
                }),
            decreases n - i,
        {
            let c = args.get_char(i);
            proof {
                assert(args@.subrange(0, (i + 1) as int).drop_last() =~= args@.subrange(
                    0,
                    i as int,
                ));
                assert(args@.subrange(0, (i + 1) as int).last() == args@[i as int]);
            }
            if depth > 0 {
                if c == ']' || c == ')' {
                    depth -= 1;
                } else if c == '[' || c == '(' {
                    depth += 1;
                }
                push_char(&mut param, c);
            } else if c == ',' && !inside_string {
                proof {
                    lemma_views_of_push(params@, param);
                }
                params.push(param);
                param = String::new();
            } else if c == '[' || c == '(' {
                depth = 1;
                push_char(&mut param, c);
            } else if c == '"' {
                inside_string = !inside_string;
            } else {
                push_char(&mut param, c);
            }
            i += 1;
        }
        proof {
            assert(args@.subrange(0, n as int) =~= args@);
            lemma_views_of_push(params@, param);
        }
        params.push(param);
        ArgumentHandler { params }
    }
}

} // verus!

verus! {

// ---------------------------------------------------------------------------
// Splitting at the first occurrence of a character
// ---------------------------------------------------------------------------

/// Splits `s` at the first occurrence of `c`: the part before it and the part
/// after it, neither containing that occurrence.
pub open spec fn spec_split_first(s: Seq<char>, c: char) -> Option<(Seq<char>, Seq<char>)>
    decreases s.len(),
{
    if s.len() == 0 {
        None
    } else if s[0] == c {
        Some((Seq::empty(), s.drop_first()))
    } else {
        match spec_split_first(s.drop_first(), c) {
            Some(p) => Some((seq![s[0]] + p.0, p.1)),
            None => None,
        }
    }
}

proof fn lemma_split_first_at(s: Seq<char>, c: char, i: int)
    requires
        0 <= i < s.len(),
        s[i] == c,
        forall|k: int| 0 <= k < i ==> s[k] != c,
    ensures
        spec_split_first(s, c) == Some((s.take(i), s.skip(i + 1))),
    decreases i,
{
    if i == 0 {
        assert(s.take(0) =~= Seq::<char>::empty());
        assert(s.skip(1) =~= s.drop_first());
    } else {
        lemma_split_first_at(s.drop_first(), c, i - 1);
        assert(seq![s[0]] + s.drop_first().take(i - 1) =~= s.take(i));
        assert(s.drop_first().skip(i) =~= s.skip(i + 1));
    }
}

proof fn lemma_split_first_none(s: Seq<char>, c: char)
    requires
        forall|k: int| 0 <= k < s.len() ==> s[k] != c,
    ensures
        spec_split_first(s, c) is None,
    decreases s.len(),
{
    if s.len() > 0 {
        lemma_split_first_none(s.drop_first(), c);
    }
}

/// The index of the first occurrence of `c` in `s`, if any.
pub fn find_char(s: &str, c: char) -> (r: Option<usize>)
    ensures
        match r {
            Some(i) => i < s@.len() && spec_split_first(s@, c) == Some(
                (s@.take(i as int), s@.skip(i as int + 1)),
            ),
            None => spec_split_first(s@, c) is None,
        },
{
    let n = s.unicode_len();
    let mut i: usize = 0;
    while i < n
        invariant
            i <= n,
            n == s@.len(),
            forall|k: int| 0 <= k < i ==> s@[k] != c,
        decreases n - i,
    {
        if s.get_char(i) == c {
            proof {
                lemma_split_first_at(s@, c, i as int);
            }
            return Some(i);
        }
        i += 1;
    }
    proof {
        lemma_split_first_none(s@, c);
    }
    None
}

// ---------------------------------------------------------------------------
// Numbers: the wire format of numeric fields
// ---------------------------------------------------------------------------
//
// A numeric field is a decimal numeral, optionally signed, except that a
// field starting with "0x" is a hexadecimal numeral and the sentinel field
// "nil" stands for zero.

/// The value of one digit character under the given radix, if it is a digit
/// of that radix.  Letter digits of either case are accepted.
pub open spec fn spec_digit(c: char, radix: nat) -> Option<nat> {
    let u = c as u32;
    let d: Option<nat> = if 48 <= u && u <= 57 {
        Some((u - 48) as nat)
    } else if 97 <= u && u <= 102 {
        Some((u - 87) as nat)
    } else if 65 <= u && u <= 70 {
        Some((u - 55) as nat)
    } else {
        None
    };
    match d {
        Some(v) => if v < radix {
            Some(v)
        } else {
            None
        },
        None => None,
    }
}

pub open spec fn spec_digit_or_zero(c: char, radix: nat) -> nat {
    match spec_digit(c, radix) {
        Some(v) => v,
        None => 0,
    }
}

/// Whether `s` is a non-empty run of digits of the given radix.
pub open spec fn spec_digits_valid(s: Seq<char>, radix: nat) -> bool {
    s.len() > 0 && forall|k: int| 0 <= k < s.len() ==> spec_digit(s[k], radix) is Some
}

/// The value of a run of digits, most significant first.
pub open spec fn spec_digits_value(s: Seq<char>, radix: nat) -> nat
    decreases s.len(),
{
    if s.len() == 0 {
        0
    } else {
        spec_digits_value(s.drop_last(), radix) * radix + spec_digit_or_zero(s.last(), radix)
    }
}

/// An unsigned numeral: an optional leading '+', then digits.
pub open spec fn spec_parse_nat(s: Seq<char>, radix: nat) -> Option<nat> {
    let body = if s.len() > 0 && s[0] == '+' {
        s.drop_first()
    } else {
        s
    };
    if spec_digits_valid(body, radix) {
        Some(spec_digits_value(body, radix))
    } else {
        None
    }
}

/// A signed numeral: an optional leading sign, then digits.
pub open spec fn spec_parse_int(s: Seq<char>, radix: nat) -> Option<int> {
    if s.len() > 0 && s[0] == '-' {
        let body = s.drop_first();
        if spec_digits_valid(body, radix) {
            Some(-(spec_digits_value(body, radix) as int))
        } else {
            None
        }
    } else {
        match spec_parse_nat(s, radix) {
            Some(v) => Some(v as int),
            None => None,
        }
    }
}

/// The value of a longer digit run is at least the value of any prefix of it.
proof fn lemma_digits_value_grows(s: Seq<char>, k: int, radix: nat)
    requires
        0 <= k <= s.len(),
        radix >= 1,
    ensures
        spec_digits_value(s.take(k), radix) <= spec_digits_value(s, radix),
    decreases s.len() - k,
{
    if k == s.len() {
        assert(s.take(k) =~= s);
    } else {
        assert(s.take(k + 1).drop_last() =~= s.take(k));
        assert(s.take(k + 1).last() == s[k]);
        let a = spec_digits_value(s.take(k), radix);
        assert(a * radix >= a) by (nonlinear_arith)
            requires
                radix >= 1,
                a >= 0,
        ;
        lemma_digits_value_grows(s, k + 1, radix);
    }
}

fn digit_of(c: char, radix: u64) -> (r: Option<u64>)
    requires
        radix == 10 || radix == 16,
    ensures
        match r {
            Some(d) => spec_digit(c, radix as nat) == Some(d as nat),
            None => spec_digit(c, radix as nat) is None,
        },
{
    let u = c as u32;
    let d: u64 = if 48 <= u && u <= 57 {
        (u - 48) as u64
    } else if radix == 16 && 97 <= u && u <= 102 {
        (u - 87) as u64
    } else if radix == 16 && 65 <= u && u <= 70 {
        (u - 55) as u64
    } else {
        return None;
    };
    if d < radix {
        Some(d)
    } else {
        None
    }
}

/// Reads the digit run `s[from..]` as a number, failing on an empty run, a
/// non-digit, or a value that does not fit in 64 bits.
fn parse_digits_u64(s: &str, from: usize, radix: u64) -> (r: Option<u64>)
    requires
        from <= s@.len(),
        radix == 10 || radix == 16,
    ensures
        ({
            let body = s@.skip(from as int);
            match r {
                Some(v) => spec_digits_valid(body, radix as nat) && v == spec_digits_value(
                    body,
                    radix as nat,
                ),
                None => !(spec_digits_valid(body, radix as nat) && spec_digits_value(
                    body,
                    radix as nat,
                ) <= u64::MAX),
            }
        }),
{
    let ghost body = s@.skip(from as int);
    let n = s.unicode_len();
    if from >= n {
        return None;
    }
    let mut acc: u64 = 0;
    let mut i: usize = from;
    while i < n
        invariant
            from <= i <= n,
            n == s@.len(),
            radix == 10 || radix == 16,
            body == s@.skip(from as int),
            forall|k: int| from <= k < i ==> spec_digit(s@[k], radix as nat) is Some,
            acc == spec_digits_value(s@.subrange(from as int, i as int), radix as nat),
        decreases n - i,
    {
        let c = s.get_char(i);
        proof {
            assert(body[(i - from) as int] == s@[i as int]);
            assert(s@.subrange(from as int, (i + 1) as int).drop_last() =~= s@.subrange(
                from as int,
                i as int,
            ));
            assert(s@.subrange(from as int, (i + 1) as int).last() == s@[i as int]);
            assert(body.take((i + 1 - from) as int) =~= s@.subrange(from as int, (i + 1) as int));
        }
        let d = match digit_of(c, radix) {
            Some(d) => d,
            None => {
                return None;
            },
        };
        let stepped = match acc.checked_mul(radix) {
            Some(m) => m.checked_add(d),
            None => None,
        };
        match stepped {
            Some(a) => {
                acc = a;
            },
            None => {
                proof {
                    lemma_digits_value_grows(body, (i + 1 - from) as int, radix as nat);
                }
                return None;
            },
        }
        i += 1;
    }
    proof {
        assert(s@.subrange(from as int, n as int) =~= body);
    }
    Some(acc)
}

/// Reads `s[from..]` as an unsigned numeral, failing when it is malformed or
/// its value does not fit in 64 bits.
fn parse_u64_radix(s: &str, from: usize, radix: u64) -> (r: Option<u64>)
    requires
        from <= s@.len(),
        radix == 10 || radix == 16,
    ensures
        ({
            let w = s@.skip(from as int);
            match r {
                Some(v) => spec_parse_nat(w, radix as nat) == Some(v as nat),
                None => match spec_parse_nat(w, radix as nat) {
                    Some(v) => v > u64::MAX,
                    None => true,
                },
            }
        }),
{
    let ghost w = s@.skip(from as int);
    let n = s.unicode_len();
    if from < n && s.get_char(from) == '+' {
        proof {
            assert(w.drop_first() =~= s@.skip((from + 1) as int));
        }
        parse_digits_u64(s, from + 1, radix)
    } else {
        parse_digits_u64(s, from, radix)
    }
}

/// Reads `s[from..]` as a signed numeral, failing when it is malformed or its
/// value falls outside the signed 64-bit range.
fn parse_i64_radix(s: &str, from: usize, radix: u64) -> (r: Option<i64>)
    requires
        from <= s@.len(),
        radix == 10 || radix == 16,
    ensures
        ({
            let w = s@.skip(from as int);
            match r {
                Some(v) => spec_parse_int(w, radix as nat) == Some(v as int),
                None => match spec_parse_int(w, radix as nat) {
                    Some(v) => v < i64::MIN || v > i64::MAX,
                    None => true,
                },
            }
        }),
{
    let ghost w = s@.skip(from as int);
    let n = s.unicode_len();
    if from < n && s.get_char(from) == '-' {
        proof {
            assert(w.drop_first() =~= s@.skip((from + 1) as int));
        }
        match parse_digits_u64(s, from + 1, radix) {
            Some(m) => {
                if m > 9223372036854775808u64 {
                    None
                } else if m == 9223372036854775808u64 {
                    Some(i64::MIN)
                } else {
                    Some(-(m as i64))
                }
            },
            None => None,
        }
    } else {
        match parse_u64_radix(s, from, radix) {
            Some(m) => {
                if m <= i64::MAX as u64 {
                    Some(m as i64)
                } else {
                    None
                }
            },
            None => None,
        }
    }
}

// ---------------------------------------------------------------------------
// Raw tokens as values
// ---------------------------------------------------------------------------

/// The numeric reading of one raw token: "nil" is zero, a "0x" prefix selects
/// hexadecimal, anything else is decimal.
pub open spec fn spec_token_nat(t: Seq<char>) -> Option<nat> {
    if t == "nil"@ {
        Some(0)
    } else if t.len() >= 2 && t[0] == '0' && t[1] == 'x' {
        spec_parse_nat(t.skip(2), 16)
    } else {
        spec_parse_nat(t, 10)
    }
}

/// The signed numeric reading of one raw token, with the same sentinel and
/// hexadecimal rules as the unsigned reading.
pub open spec fn spec_token_int(t: Seq<char>) -> Option<int> {
    if t == "nil"@ {
        Some(0)
    } else if t.len() >= 2 && t[0] == '0' && t[1] == 'x' {
        spec_parse_int(t.skip(2), 16)
    } else {
        spec_parse_int(t, 10)
    }
}

/// The boolean reading of one raw token: "nil" is false, otherwise the token
/// must be a signed numeral fitting in 8 bits, and exactly 1 means true.
pub open spec fn spec_token_bool(t: Seq<char>) -> Option<bool> {
    if t == "nil"@ {
        Some(false)
    } else {
        match spec_parse_int(t, 10) {
            Some(v) => if -128 <= v <= 127 {
                Some(v == 1)
            } else {
                None
            },
            None => None,
        }
    }
}

/// The two-part reading of a power-resource token: "type|value" splits into
/// the two numbers, a token without '|' is a bare value with type zero.
pub open spec fn spec_token_multi(t: Seq<char>) -> Option<(nat, nat)> {
    match spec_split_first(t, '|') {
        Some(p) => match (spec_parse_nat(p.0, 10), spec_parse_nat(p.1, 10)) {
            (Some(a), Some(b)) => Some((a, b)),
            _ => None,
        },
        None => match spec_parse_nat(t, 10) {
            Some(v) => Some((0, v)),
            None => None,
        },
    }
}

/// Reads a token as an unsigned number no greater than `max`.
pub fn token_to_u64(t: &str, max: u64) -> (r: Option<u64>)
    ensures
        match r {
            Some(v) => spec_token_nat(t@) == Some(v as nat) && v <= max,
            None => match spec_token_nat(t@) {
                Some(v) => v > max,
                None => true,
            },
        },
{
    if str_eq_str(t, "nil") {
        return Some(0);
    }
    let n = t.unicode_len();
    let parsed = if n >= 2 && t.get_char(0) == '0' && t.get_char(1) == 'x' {
        parse_u64_radix(t, 2, 16)
    } else {
        proof {
            assert(t@.skip(0) =~= t@);
        }
        parse_u64_radix(t, 0, 10)
    };
    match parsed {
        Some(v) => if v <= max {
            Some(v)
        } else {
            None
        },
        None => None,
    }
}

/// Reads a token as a signed number within `lo ..= hi`.
pub fn token_to_i64(t: &str, lo: i64, hi: i64) -> (r: Option<i64>)
    requires
        lo <= 0 <= hi,
    ensures
        match r {
            Some(v) => spec_token_int(t@) == Some(v as int) && lo <= v <= hi,
            None => match spec_token_int(t@) {
                Some(v) => v < lo || v > hi,
                None => true,
            },
        },
{
    if str_eq_str(t, "nil") {
        return Some(0);
    }
    let n = t.unicode_len();
    let parsed = if n >= 2 && t.get_char(0) == '0' && t.get_char(1) == 'x' {
        parse_i64_radix(t, 2, 16)
    } else {
        proof {
            assert(t@.skip(0) =~= t@);
        }
        parse_i64_radix(t, 0, 10)
    };
    match parsed {
        Some(v) => if lo <= v && v <= hi {
            Some(v)
        } else {
            None
        },
        None => None,
    }
}

/// Reads a token as a boolean.
pub fn token_to_bool(t: &str) -> (r: Option<bool>)
    ensures
        r == spec_token_bool(t@),
{
    if str_eq_str(t, "nil") {
        return Some(false);
    }
    proof {
        assert(t@.skip(0) =~= t@);
    }
    match parse_i64_radix(t, 0, 10) {
        Some(v) => if -128 <= v && v <= 127 {
            Some(v == 1)
        } else {
            None
        },
        None => None,
    }
}

} // verus!

verus! {

// ---------------------------------------------------------------------------
// Shared error constructors
// ---------------------------------------------------------------------------

fn index_error() -> (r: JastorError)
    ensures
        r matches JastorError::GenericError(_),
{
    JastorError::GenericError(String::from_str("invalid index for param check"))
}

fn number_error(t: &str) -> (r: JastorError)
    ensures
        r matches JastorError::ParseError(m) && m@ == "cannot convert string to number: "@ + t@,
{
    let mut m = String::from_str("cannot convert string to number: ");
    m.append(t);
    JastorError::ParseError(m)
}

// ---------------------------------------------------------------------------
// Quoted strings
// ---------------------------------------------------------------------------

/// A token with its surrounding quote characters removed: one leading and one
/// trailing quote, each stripped when present.
pub open spec fn spec_strip_quotes(t: Seq<char>) -> Seq<char> {
    let a = if t.len() > 0 && t[0] == '"' {
        t.drop_first()
    } else {
        t
    };
    if a.len() > 0 && a.last() == '"' {
        a.drop_last()
    } else {
        a
    }
}

/// Removes the surrounding quote characters of a token.
pub fn strip_quotes(t: &str) -> (r: String)
    ensures
        r@ == spec_strip_quotes(t@),
{
    let n = t.unicode_len();
    let lo: usize = if n > 0 && t.get_char(0) == '"' {
        1
    } else {
        0
    };
    let hi: usize = if n > lo && t.get_char(n - 1) == '"' {
        n - 1
    } else {
        n
    };
    let sub = t.substring_char(lo, hi);
    proof {
        let tv = t@;
        let a = if tv.len() > 0 && tv[0] == '"' {
            tv.drop_first()
        } else {
            tv
        };
        assert(a =~= tv.subrange(lo as int, n as int));
        if a.len() > 0 && a.last() == '"' {
            assert(a.drop_last() =~= tv.subrange(lo as int, hi as int));
        } else {
            assert(a =~= tv.subrange(lo as int, hi as int));
        }
    }
    String::from_str(sub)
}

// ---------------------------------------------------------------------------
// Bounded token readings
// ---------------------------------------------------------------------------

/// The numeric reading of a token when its value fits under `max`.
pub open spec fn spec_token_nat_in(t: Seq<char>, max: nat) -> Option<nat> {
    match spec_token_nat(t) {
        Some(v) => if v <= max {
            Some(v)
        } else {
            None
        },
        None => None,
    }
}

/// The signed reading of a token when its value lies in `lo ..= hi`.
pub open spec fn spec_token_int_in(t: Seq<char>, lo: int, hi: int) -> Option<int> {
    match spec_token_int(t) {
        Some(v) => if lo <= v <= hi {
            Some(v)
        } else {
            None
        },
        None => None,
    }
}

/// The two-part reading of a power-resource token when both parts fit under
/// `max`.
pub open spec fn spec_token_multi_in(t: Seq<char>, max: nat) -> Option<(nat, nat)> {
    match spec_token_multi(t) {
        Some((a, b)) => if a <= max && b <= max {
            Some((a, b))
        } else {
            None
        },
        None => None,
    }
}

// ---------------------------------------------------------------------------
// The accessor interface shared by both handlers
// ---------------------------------------------------------------------------

/// Validated, positional access to a window of raw fields.
pub trait ParameterHandler: Sized {
    /// The character sequences of the handled fields, in order.
    spec fn params_view(&self) -> Seq<Seq<char>>;

    /// How many fields the handler holds.
    fn len(&self) -> (r: usize)
        ensures
            r == self.params_view().len();

    /// Checks that `idx` is a valid field index.
    fn valid_idx(&self, idx: usize) -> (r: Result<(), JastorError>)
        ensures
            r is Ok <==> idx < self.params_view().len(),
            r matches Err(e) ==> e matches JastorError::GenericError(_);

    /// The raw text of the field at `idx`.
    fn raw(&self, idx: usize) -> (r: Result<&String, JastorError>)
        ensures
            r is Ok <==> idx < self.params_view().len(),
            r matches Ok(t) ==> t@ == self.params_view()[idx as int],
            r matches Err(e) ==> e matches JastorError::GenericError(_);

    /// The field at `idx` with its surrounding quote characters removed.
    fn as_string(&self, idx: usize) -> (r: Result<String, JastorError>)
        ensures
            r is Ok <==> idx < self.params_view().len(),
            r matches Ok(t) ==> t@ == spec_strip_quotes(self.params_view()[idx as int]),
            r matches Err(e) ==> e matches JastorError::GenericError(_);

    /// The field at `idx` read as a boolean: exactly 1 is true, any other
    /// 8-bit number and the sentinel "nil" are false.
    fn as_boolean(&self, idx: usize) -> (r: Result<bool, JastorError>)
        ensures
            r is Ok <==> idx < self.params_view().len() && spec_token_bool(
                self.params_view()[idx as int],
            ) is Some,
            r matches Ok(b) ==> Some(b) == spec_token_bool(self.params_view()[idx as int]),
            r matches Err(e) ==> if idx < self.params_view().len() {
                e matches JastorError::ParseError(_)
            } else {
                e matches JastorError::GenericError(_)
            };

    /// The field at `idx` when it has the shape of a fractional numeral,
    /// kept as its raw text.
    fn as_fractional(&self, idx: usize) -> (r: Result<String, JastorError>)
        ensures
            r is Ok <==> idx < self.params_view().len() && spec_fractional(
                self.params_view()[idx as int],
            ),
            r matches Ok(t) ==> t@ == self.params_view()[idx as int],
            r matches Err(e) ==> if idx < self.params_view().len() {
                e matches JastorError::ParseError(_)
            } else {
                e matches JastorError::GenericError(_)
            };

    /// The field at `idx` read as an unsigned number that fits in `u8`.
    fn as_u8(&self, idx: usize) -> (r: Result<u8, JastorError>)
        ensures
            r is Ok <==> idx < self.params_view().len() && spec_token_nat_in(
                self.params_view()[idx as int],
                u8::MAX as nat,
            ) is Some,
            r matches Ok(v) ==> Some(v as nat) == spec_token_nat_in(
                self.params_view()[idx as int],
                u8::MAX as nat,
            ),
            r matches Err(e) ==> if idx < self.params_view().len() {
                e matches JastorError::ParseError(_)
            } else {
                e matches JastorError::GenericError(_)
            };

    /// The field at `idx` read as an unsigned number that fits in `u16`.
    fn as_u16(&self, idx: usize) -> (r: Result<u16, JastorError>)
        ensures
            r is Ok <==> idx < self.params_view().len() && spec_token_nat_in(
                self.params_view()[idx as int],
                u16::MAX as nat,
            ) is Some,
            r matches Ok(v) ==> Some(v as nat) == spec_token_nat_in(
                self.params_view()[idx as int],
                u16::MAX as nat,
            ),
            r matches Err(e) ==> if idx < self.params_view().len() {
                e matches JastorError::ParseError(_)
            } else {
                e matches JastorError::GenericError(_)
            };

    /// The field at `idx` read as an unsigned number that fits in `u32`.
    fn as_u32(&self, idx: usize) -> (r: Result<u32, JastorError>)
        ensures
            r is Ok <==> idx < self.params_view().len() && spec_token_nat_in(
                self.params_view()[idx as int],
                u32::MAX as nat,
            ) is Some,
            r matches Ok(v) ==> Some(v as nat) == spec_token_nat_in(
                self.params_view()[idx as int],
                u32::MAX as nat,
            ),
            r matches Err(e) ==> if idx < self.params_view().len() {
                e matches JastorError::ParseError(_)
            } else {
                e matches JastorError::GenericError(_)
            };

    /// The field at `idx` read as an unsigned number that fits in `u64`.
    fn as_u64(&self, idx: usize) -> (r: Result<u64, JastorError>)
        ensures
            r is Ok <==> idx < self.params_view().len() && spec_token_nat_in(
                self.params_view()[idx as int],
                u64::MAX as nat,
            ) is Some,
            r matches Ok(v) ==> Some(v as nat) == spec_token_nat_in(
                self.params_view()[idx as int],
                u64::MAX as nat,
            ),
            r matches Err(e) ==> if idx < self.params_view().len() {
                e matches JastorError::ParseError(_)
            } else {
                e matches JastorError::GenericError(_)
            };

    /// The field at `idx` read as an unsigned number that fits in `usize`.
    fn as_usize(&self, idx: usize) -> (r: Result<usize, JastorError>)
        ensures
            r is Ok <==> idx < self.params_view().len() && spec_token_nat_in(
                self.params_view()[idx as int],
                usize::MAX as nat,
            ) is Some,
            r matches Ok(v) ==> Some(v as nat) == spec_token_nat_in(
                self.params_view()[idx as int],
                usize::MAX as nat,
            ),
            r matches Err(e) ==> if idx < self.params_view().len() {
                e matches JastorError::ParseError(_)
            } else {
                e matches JastorError::GenericError(_)
            };

    /// The field at `idx` read as a signed number that fits in `isize`.
    fn as_isize(&self, idx: usize) -> (r: Result<isize, JastorError>)
        ensures
            r is Ok <==> idx < self.params_view().len() && spec_token_int_in(
                self.params_view()[idx as int],
                isize::MIN as int,
                isize::MAX as int,
            ) is Some,
            r matches Ok(v) ==> Some(v as int) == spec_token_int_in(
                self.params_view()[idx as int],
                isize::MIN as int,
                isize::MAX as int,
            ),
            r matches Err(e) ==> if idx < self.params_view().len() {
                e matches JastorError::ParseError(_)
            } else {
                e matches JastorError::GenericError(_)
            };

}

impl ParameterHandler for ArgumentHandler {

    open spec fn params_view(&self) -> Seq<Seq<char>> {
        views_of(self.params@)
    }

    fn len(&self) -> (r: usize) {
        self.params.len()
    }

    fn valid_idx(&self, idx: usize) -> (r: Result<(), JastorError>) {
        if idx >= self.params.len() {
            return Err(index_error());
        }
        Ok(())
    }

    fn raw(&self, idx: usize) -> (r: Result<&String, JastorError>) {
        if idx >= self.params.len() {
            return Err(index_error());
        }
        Ok(&self.params[idx])
    }

    fn as_string(&self, idx: usize) -> (r: Result<String, JastorError>) {
        if idx >= self.params.len() {
            return Err(index_error());
        }
        Ok(strip_quotes(&self.params[idx].as_str()))
    }

    fn as_boolean(&self, idx: usize) -> (r: Result<bool, JastorError>) {
        if idx >= self.params.len() {
            return Err(index_error());
        }
        let t = &self.params[idx];
        match token_to_bool(t.as_str()) {
            Some(b) => Ok(b),
            None => Err(number_error(t.as_str())),
        }
    }

    fn as_fractional(&self, idx: usize) -> (r: Result<String, JastorError>) {
        if idx >= self.params.len() {
            return Err(index_error());
        }
        let t = &self.params[idx];
        if !is_fractional_token(t.as_str()) {
            return Err(number_error(t.as_str()));
        }
        Ok(t.clone())
    }

    fn as_u8(&self, idx: usize) -> (r: Result<u8, JastorError>) {
        if idx >= self.params.len() {
            return Err(index_error());
        }
        let t = &self.params[idx];
        match token_to_u64(t.as_str(), u8::MAX as u64) {
            Some(v) => Ok(v as u8),
            None => Err(number_error(t.as_str())),
        }
    }

    fn as_u16(&self, idx: usize) -> (r: Result<u16, JastorError>) {
        if idx >= self.params.len() {
            return Err(index_error());
        }
        let t = &self.params[idx];
        match token_to_u64(t.as_str(), u16::MAX as u64) {
            Some(v) => Ok(v as u16),
            None => Err(number_error(t.as_str())),
        }
    }

    fn as_u32(&self, idx: usize) -> (r: Result<u32, JastorError>) {
        if idx >= self.params.len() {
            return Err(index_error());
        }
        let t = &self.params[idx];
        match token_to_u64(t.as_str(), u32::MAX as u64) {
            Some(v) => Ok(v as u32),
            None => Err(number_error(t.as_str())),
        }
    }

    fn as_u64(&self, idx: usize) -> (r: Result<u64, JastorError>) {
        if idx >= self.params.len() {
            return Err(index_error());
        }
        let t = &self.params[idx];
        match token_to_u64(t.as_str(), u64::MAX) {
            Some(v) => Ok(v),
            None => Err(number_error(t.as_str())),
        }
    }

    fn as_usize(&self, idx: usize) -> (r: Result<usize, JastorError>) {
        if idx >= self.params.len() {
            return Err(index_error());
        }
        let t = &self.params[idx];
        match token_to_u64(t.as_str(), usize::MAX as u64) {
            Some(v) => Ok(v as usize),
            None => Err(number_error(t.as_str())),
        }
    }

    fn as_isize(&self, idx: usize) -> (r: Result<isize, JastorError>) {
        if idx >= self.params.len() {
            return Err(index_error());
        }
        let t = &self.params[idx];
        match token_to_i64(t.as_str(), isize::MIN as i64, isize::MAX as i64) {
            Some(v) => Ok(v as isize),
            None => Err(number_error(t.as_str())),
        }
    }

}

/// Positional access to a borrowed window of raw fields.
#[derive(Debug, Clone)]
pub struct SliceHander<'a> {
    pub params: &'a [String],
}

impl<'a> SliceHander<'a> {
    pub fn new(params: &'a [String]) -> (r: Self)
        ensures
            r.params@ == params@,
    {
        SliceHander { params }
    }

    /// The field at `idx` read as a power-resource pair: "type|value" gives
    /// both numbers, a bare number is a value with type zero.
    pub fn as_multi_value_number(&self, idx: usize) -> (r: Result<(usize, usize), JastorError>)
        ensures
            r is Ok <==> idx < self.params_view().len() && spec_token_multi_in(
                self.params_view()[idx as int],
                usize::MAX as nat,
            ) is Some,
            r matches Ok(p) ==> Some((p.0 as nat, p.1 as nat)) == spec_token_multi_in(
                self.params_view()[idx as int],
                usize::MAX as nat,
            ),
            r matches Err(e) ==> if idx < self.params_view().len() {
                e matches JastorError::ParseError(_)
            } else {
                e matches JastorError::GenericError(_)
            },
    {
        if idx >= self.params.len() {
            return Err(index_error());
        }
        let t: &String = slice_index_get(self.params, idx);
        let s = t.as_str();
        let n = s.unicode_len();
        match find_char(s, '|') {
            Some(i) => {
                let left = s.substring_char(0, i);
                let right = s.substring_char(i + 1, n);
                proof {
                    assert(s@.subrange(0, i as int) =~= s@.take(i as int));
                    assert(s@.subrange(i as int + 1, n as int) =~= s@.skip(i as int + 1));
                    assert(left@.skip(0) =~= left@);
                    assert(right@.skip(0) =~= right@);
                }
                let a = match parse_u64_radix(left, 0, 10) {
                    Some(a) => a,
                    None => {
                        return Err(number_error(s));
                    },
                };
                let b = match parse_u64_radix(right, 0, 10) {
                    Some(b) => b,
                    None => {
                        return Err(number_error(s));
                    },
                };
                if a <= usize::MAX as u64 && b <= usize::MAX as u64 {
                    Ok((a as usize, b as usize))
                } else {
                    Err(number_error(s))
                }
            },
            None => {
                proof {
                    assert(s@.skip(0) =~= s@);
                }
                match parse_u64_radix(s, 0, 10) {
                    Some(v) => {
                        if v <= usize::MAX as u64 {
                            Ok((0, v as usize))
                        } else {
                            Err(number_error(s))
                        }
                    },
                    None => Err(number_error(s)),
                }
            },
        }
    }
}

impl<'a> ParameterHandler for SliceHander<'a> {

    open spec fn params_view(&self) -> Seq<Seq<char>> {
        views_of(self.params@)
    }

    fn len(&self) -> (r: usize) {
        self.params.len()
    }

    fn valid_idx(&self, idx: usize) -> (r: Result<(), JastorError>) {
        if idx >= self.params.len() {
            return Err(index_error());
        }
        Ok(())
    }

    fn raw(&self, idx: usize) -> (r: Result<&String, JastorError>) {
        if idx >= self.params.len() {
            return Err(index_error());
        }
        Ok(slice_index_get(self.params, idx))
    }

    fn as_string(&self, idx: usize) -> (r: Result<String, JastorError>) {
        if idx >= self.params.len() {
            return Err(index_error());
        }
        Ok(strip_quotes(slice_index_get(self.params, idx).as_str()))
    }

    fn as_boolean(&self, idx: usize) -> (r: Result<bool, JastorError>) {
        if idx >= self.params.len() {
            return Err(index_error());
        }
        let t = slice_index_get(self.params, idx);
        match token_to_bool(t.as_str()) {
            Some(b) => Ok(b),
            None => Err(number_error(t.as_str())),
        }
    }

    fn as_fractional(&self, idx: usize) -> (r: Result<String, JastorError>) {
        if idx >= self.params.len() {
            return Err(index_error());
        }
        let t = slice_index_get(self.params, idx);
        if !is_fractional_token(t.as_str()) {
            return Err(number_error(t.as_str()));
        }
        Ok(t.clone())
    }

    fn as_u8(&self, idx: usize) -> (r: Result<u8, JastorError>) {
        if idx >= self.params.len() {
            return Err(index_error());
        }
        let t = slice_index_get(self.params, idx);
        match token_to_u64(t.as_str(), u8::MAX as u64) {
            Some(v) => Ok(v as u8),
            None => Err(number_error(t.as_str())),
        }
    }

    fn as_u16(&self, idx: usize) -> (r: Result<u16, JastorError>) {
        if idx >= self.params.len() {
            return Err(index_error());
        }
        let t = slice_index_get(self.params, idx);
        match token_to_u64(t.as_str(), u16::MAX as u64) {
            Some(v) => Ok(v as u16),
            None => Err(number_error(t.as_str())),
        }
    }

    fn as_u32(&self, idx: usize) -> (r: Result<u32, JastorError>) {
        if idx >= self.params.len() {
            return Err(index_error());
        }
        let t = slice_index_get(self.params, idx);
        match token_to_u64(t.as_str(), u32::MAX as u64) {
            Some(v) => Ok(v as u32),
            None => Err(number_error(t.as_str())),
        }
    }

    fn as_u64(&self, idx: usize) -> (r: Result<u64, JastorError>) {
        if idx >= self.params.len() {
            return Err(index_error());
        }
        let t = slice_index_get(self.params, idx);
        match token_to_u64(t.as_str(), u64::MAX) {
            Some(v) => Ok(v),
            None => Err(number_error(t.as_str())),
        }
    }

    fn as_usize(&self, idx: usize) -> (r: Result<usize, JastorError>) {
        if idx >= self.params.len() {
            return Err(index_error());
        }
        let t = slice_index_get(self.params, idx);
        match token_to_u64(t.as_str(), usize::MAX as u64) {
            Some(v) => Ok(v as usize),
            None => Err(number_error(t.as_str())),
        }
    }

    fn as_isize(&self, idx: usize) -> (r: Result<isize, JastorError>) {
        if idx >= self.params.len() {
            return Err(index_error());
        }
        let t = slice_index_get(self.params, idx);
        match token_to_i64(t.as_str(), isize::MIN as i64, isize::MAX as i64) {
            Some(v) => Ok(v as isize),
            None => Err(number_error(t.as_str())),
        }
    }

}

} // verus!

verus! {

// ---------------------------------------------------------------------------
// Layout windows
// ---------------------------------------------------------------------------
//
// A combat-category field list is partitioned, in order and without overlap,
// into the eight-field base window, the tag's prefix window, the nineteen-
// field advanced window when the tag's layout carries one, and the suffix
// window holding everything that remains.

/// Number of identity fields at the front of every combat-category field
/// list: four for the source unit and four for the target unit.
pub const BASE_PARAMETERS_IDX: usize = 8;

/// Length of the fixed unit-state snapshot block that follows the prefix
/// window on events that carry one.
pub const ADVANCED_PARAM_LEN: usize = 19;

/// Where the suffix window of a tag's layout begins.
pub open spec fn spec_suffix_start(event_type: EventType) -> int {
    8 + event_type.spec_prefix_parameters() + if event_type.spec_has_advanced_parameters() {
        19int
    } else {
        0int
    }
}

/// The suffix window of a field list: all fields from the suffix start on,
/// empty when the list ends before that.
pub open spec fn spec_suffix(params: Seq<String>, event_type: EventType) -> Seq<String> {
    let off = spec_suffix_start(event_type);
    if off < params.len() {
        params.subrange(off, params.len() as int)
    } else {
        Seq::empty()
    }
}

impl ArgumentHandler {
    /// The eight-field source/target identity window.
    pub fn base_params(&self) -> (r: Result<&[String], JastorError>)
        ensures
            r is Ok <==> self.params@.len() > 8,
            r matches Ok(s) ==> s@ == self.params@.subrange(0, 8),
            r matches Err(e) ==> e matches JastorError::GenericError(_),
    {
        if self.params.len() <= BASE_PARAMETERS_IDX {
            return Err(index_error());
        }
        Ok(vstd::slice::slice_subrange(self.params.as_slice(), 0, BASE_PARAMETERS_IDX))
    }

    /// The prefix window of the given tag's layout: the fields between the
    /// base window and whatever follows.
    pub fn prefix_parameters(&self, event_type: EventType) -> (r: Result<&[String], JastorError>)
        ensures
            ({
                let n = event_type.spec_prefix_parameters();
                let idx = if n == 0 {
                    8int
                } else {
                    8 + n - 1
                };
                &&& (r is Ok <==> idx < self.params@.len())
                &&& (r matches Ok(s) ==> s@ == self.params@.subrange(8, 8 + n as int))
                &&& (r matches Err(e) ==> e matches JastorError::GenericError(_))
            }),
    {
        let n = event_type.prefix_parameters();
        let idx = if n == 0 {
            BASE_PARAMETERS_IDX
        } else {
            BASE_PARAMETERS_IDX + n - 1
        };
        if idx >= self.params.len() {
            return Err(index_error());
        }
        Ok(
            vstd::slice::slice_subrange(
                self.params.as_slice(),
                BASE_PARAMETERS_IDX,
                BASE_PARAMETERS_IDX + n,
            ),
        )
    }

    /// The advanced window of the given tag's layout, when the layout has
    /// one: the fixed unit-state snapshot between prefix and suffix.  The
    /// whole window must fit inside the field list.
    pub fn advanced_parameters(&self, event_type: EventType) -> (r: Result<
        Option<&[String]>,
        JastorError,
    >)
        ensures
            ({
                let start: int = 8 + event_type.spec_prefix_parameters() as int;
                if !event_type.spec_has_advanced_parameters() {
                    r matches Ok(o) && o is None
                } else {
                    &&& (r is Ok <==> start + 19 <= self.params@.len())
                    &&& (r matches Ok(o) ==> o matches Some(s) && s@ == self.params@.subrange(
                        start,
                        start + 19,
                    ))
                    &&& (r matches Err(e) ==> e matches JastorError::GenericError(_))
                }
            }),
    {
        if !event_type.has_advanced_parameters() {
            return Ok(None);
        }
        let idx = BASE_PARAMETERS_IDX + event_type.prefix_parameters();
        if idx > usize::MAX - ADVANCED_PARAM_LEN || idx + ADVANCED_PARAM_LEN > self.params.len() {
            return Err(index_error());
        }
        Ok(
            Some(
                vstd::slice::slice_subrange(
                    self.params.as_slice(),
                    idx,
                    idx + ADVANCED_PARAM_LEN,
                ),
            ),
        )
    }

    /// Every field after the base window, for events whose spell prefix was
    /// elided by the source log.
    pub fn fields_from_base(&self) -> (r: Result<&[String], JastorError>)
        ensures
            r is Ok <==> self.params@.len() > 8,
            r matches Ok(s) ==> s@ == self.params@.subrange(8, self.params@.len() as int),
            r matches Err(e) ==> e matches JastorError::GenericError(_),
    {
        if self.params.len() <= BASE_PARAMETERS_IDX {
            return Err(index_error());
        }
        Ok(
            vstd::slice::slice_subrange(
                self.params.as_slice(),
                BASE_PARAMETERS_IDX,
                self.params.len(),
            ),
        )
    }

    /// The suffix window of the given tag's layout: everything after the
    /// windows above, empty when the field list ends before it.
    pub fn suffix_parameters(&self, event_type: EventType) -> (r: Result<&[String], JastorError>)
        ensures
            r matches Ok(s) && s@ == spec_suffix(self.params@, event_type),
    {
        let base_idx = BASE_PARAMETERS_IDX + event_type.prefix_parameters();
        let offset = if event_type.has_advanced_parameters() {
            base_idx + ADVANCED_PARAM_LEN
        } else {
            base_idx
        };
        if offset < self.params.len() {
            Ok(vstd::slice::slice_subrange(self.params.as_slice(), offset, self.params.len()))
        } else {
            let empty = vstd::slice::slice_subrange(self.params.as_slice(), 0, 0);
            proof {
                assert(empty@ =~= Seq::<String>::empty());
            }
            Ok(empty)
        }
    }
}

} // verus!

verus! {

/// Law: the base window, the prefix window, the advanced window when the
/// layout carries one, and the suffix window do not overlap and partition
/// the field list exactly, in that order, whenever the list is long enough
/// to hold the fixed windows.
pub proof fn lemma_windows_partition(params: Seq<String>, event_type: EventType)
    requires
        spec_suffix_start(event_type) <= params.len(),
    ensures
        ({
            let n = event_type.spec_prefix_parameters() as int;
            let advanced: Seq<String> = if event_type.spec_has_advanced_parameters() {
                params.subrange(8 + n, 8 + n + 19)
            } else {
                Seq::empty()
            };
            params.subrange(0, 8) + params.subrange(8, 8 + n) + advanced + spec_suffix(
                params,
                event_type,
            ) == params
        }),
{
    let n = event_type.spec_prefix_parameters() as int;
    let advanced: Seq<String> = if event_type.spec_has_advanced_parameters() {
        params.subrange(8 + n, 8 + n + 19)
    } else {
        Seq::empty()
    };
    assert(params.subrange(0, 8) + params.subrange(8, 8 + n) + advanced + spec_suffix(
        params,
        event_type,
    ) =~= params);
}

} // verus!

verus! {

// ---------------------------------------------------------------------------
// Rendering numbers
// ---------------------------------------------------------------------------

/// The character of one decimal digit.
pub open spec fn spec_dec_digit_char(d: nat) -> char {
    if d == 0 {
        '0'
    } else if d == 1 {
        '1'
    } else if d == 2 {
        '2'
    } else if d == 3 {
        '3'
    } else if d == 4 {
        '4'
    } else if d == 5 {
        '5'
    } else if d == 6 {
        '6'
    } else if d == 7 {
        '7'
    } else if d == 8 {
        '8'
    } else {
        '9'
    }
}

/// The decimal rendering of a number, most significant digit first, with no
/// leading zero except for zero itself.
pub open spec fn spec_u64_dec(v: nat) -> Seq<char>
    decreases v,
{
    if v < 10 {
        seq![spec_dec_digit_char(v)]
    } else {
        spec_u64_dec(v / 10).push(spec_dec_digit_char(v % 10))
    }
}

/// Law: rendering a number in decimal and reading the digits back yields the
/// number itself.
pub proof fn lemma_dec_round_trip(v: nat)
    ensures
        spec_digits_valid(spec_u64_dec(v), 10),
        spec_digits_value(spec_u64_dec(v), 10) == v,
    decreases v,
{
    assert(spec_digit(spec_dec_digit_char(v % 10), 10) == Some(v % 10));
    if v < 10 {
        assert(v % 10 == v);
        assert(spec_u64_dec(v).drop_last() =~= Seq::<char>::empty());
        assert(spec_u64_dec(v).last() == spec_dec_digit_char(v));
        assert(spec_digits_value(Seq::<char>::empty(), 10) == 0);
        assert(spec_digits_value(spec_u64_dec(v), 10) == spec_digits_value(
            spec_u64_dec(v).drop_last(),
            10,
        ) * 10 + spec_digit_or_zero(spec_u64_dec(v).last(), 10));
    } else {
        lemma_dec_round_trip(v / 10);
        let s = spec_u64_dec(v);
        assert(s.drop_last() =~= spec_u64_dec(v / 10));
        assert(s.last() == spec_dec_digit_char(v % 10));
        assert(spec_digits_value(s, 10) == spec_digits_value(s.drop_last(), 10) * 10
            + spec_digit_or_zero(s.last(), 10));
        assert(v / 10 * 10 + v % 10 == v);
        assert forall|k: int| 0 <= k < s.len() implies spec_digit(s[k], 10) is Some by {
            if k < s.len() - 1 {
                assert(s[k] == spec_u64_dec(v / 10)[k]);
            }
        }
    }
}

fn dec_digit_char(d: u64) -> (r: char)
    requires
        d < 10,
    ensures
        r == spec_dec_digit_char(d as nat),
{
    match d {
        0 => '0',
        1 => '1',
        2 => '2',
        3 => '3',
        4 => '4',
        5 => '5',
        6 => '6',
        7 => '7',
        8 => '8',
        _ => '9',
    }
}

/// Renders a number in decimal.
pub fn u64_to_dec(v: u64) -> (r: String)
    ensures
        r@ == spec_u64_dec(v as nat),
    decreases v,
{
    if v < 10 {
        let mut s = String::new();
        push_char(&mut s, dec_digit_char(v));
        proof {
            assert(s@ =~= spec_u64_dec(v as nat));
        }
        s
    } else {
        let mut s = u64_to_dec(v / 10);
        push_char(&mut s, dec_digit_char(v % 10));
        s
    }
}

} // verus!

verus! {

// ---------------------------------------------------------------------------
// Fractional numerals
// ---------------------------------------------------------------------------
//
// Some wire fields carry fractional values (world positions, facing,
// energize amounts).  The library keeps their text but checks its shape, so
// that a malformed field still fails with a conversion error.

/// Whether `t` has the shape of a fractional numeral as the wire format
/// writes one: an optional sign, a non-empty digit run, and optionally a
/// point followed by another non-empty digit run.  The sentinel "nil" is
/// accepted and kept as it stands.
pub open spec fn spec_fractional(t: Seq<char>) -> bool {
    t == "nil"@ || {
        let body = if t.len() > 0 && (t[0] == '+' || t[0] == '-') {
            t.drop_first()
        } else {
            t
        };
        match spec_split_first(body, '.') {
            Some(p) => spec_digits_valid(p.0, 10) && spec_digits_valid(p.1, 10),
            None => spec_digits_valid(body, 10),
        }
    }
}

/// Whether `s[from..to]` is a non-empty run of decimal digits.
fn is_digit_run(s: &str, from: usize, to: usize) -> (r: bool)
    requires
        from <= to <= s@.len(),
    ensures
        r == spec_digits_valid(s@.subrange(from as int, to as int), 10),
{
    let ghost run = s@.subrange(from as int, to as int);
    if from == to {
        return false;
    }
    let mut i: usize = from;
    while i < to
        invariant
            from <= i <= to,
            to <= s@.len(),
            run == s@.subrange(from as int, to as int),
            forall|k: int| from <= k < i ==> spec_digit(s@[k], 10) is Some,
        decreases to - i,
    {
        let d = digit_of(s.get_char(i), 10);
        if d.is_none() {
            proof {
                assert(run[(i - from) as int] == s@[i as int]);
            }
            return false;
        }
        i += 1;
    }
    proof {
        assert(forall|k: int| 0 <= k < run.len() ==> run[k] == s@[from + k]);
    }
    true
}

/// Checks that a token has the shape of a fractional numeral.
pub fn is_fractional_token(t: &str) -> (r: bool)
    ensures
        r == spec_fractional(t@),
{
    if str_eq_str(t, "nil") {
        return true;
    }
    let n = t.unicode_len();
    let start: usize = if n > 0 && (t.get_char(0) == '+' || t.get_char(0) == '-') {
        1
    } else {
        0
    };
    let ghost body = if t@.len() > 0 && (t@[0] == '+' || t@[0] == '-') {
        t@.drop_first()
    } else {
        t@
    };
    proof {
        assert(body =~= t@.subrange(start as int, n as int));
    }
    match find_char_from(t, start, '.') {
        None => {
            proof {
                assert forall|k: int| 0 <= k < body.len() implies body[k] != '.' by {
                    assert(body[k] == t@[start + k]);
                }
                lemma_split_first_none(body, '.');
            }
            is_digit_run(t, start, n)
        },
        Some(i) => {
            proof {
                assert(body[(i - start) as int] == t@[i as int]);
                assert forall|k: int| 0 <= k < i - start implies body[k] != '.' by {
                    assert(body[k] == t@[start + k]);
                }
                lemma_split_first_at(body, '.', (i - start) as int);
                assert(body.take((i - start) as int) =~= t@.subrange(start as int, i as int));
                assert(body.skip((i - start) as int + 1) =~= t@.subrange(
                    (i + 1) as int,
                    n as int,
                ));
            }
            is_digit_run(t, start, i) && is_digit_run(t, i + 1, n)
        },
    }
}

/// The index of the first occurrence of `c` in `s` at or after `from`.
fn find_char_from(s: &str, from: usize, c: char) -> (r: Option<usize>)
    requires
        from <= s@.len(),
    ensures
        match r {
            Some(i) => from <= i < s@.len() && s@[i as int] == c && forall|k: int|
                from <= k < i ==> s@[k] != c,
            None => forall|k: int| from <= k < s@.len() ==> s@[k] != c,
        },
{
    let n = s.unicode_len();
    let mut j: usize = from;
    while j < n
        invariant
            from <= j <= n,
            n == s@.len(),
            forall|k: int| from <= k < j ==> s@[k] != c,
        decreases n - j,
    {
        if s.get_char(j) == c {
            return Some(j);
        }
        j += 1;
    }
    None
}

} // verus!
