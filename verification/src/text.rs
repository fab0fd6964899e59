//! Character-level helpers shared by the identifier, description and scope types.
use vstd::prelude::*;
use vstd::string::StringExecFns;

verus! {

/// Whether `c` is a Unicode `White_Space` code point, the set that `str::trim` removes.
pub open spec fn is_white_space(c: char) -> bool {
    let v = c as u32;
    ||| 0x9 <= v <= 0xD
    ||| v == 0x20
    ||| v == 0x85
    ||| v == 0xA0
    ||| v == 0x1680
    ||| 0x2000 <= v <= 0x200A
    ||| v == 0x2028
    ||| v == 0x2029
    ||| v == 0x202F
    ||| v == 0x205F
    ||| v == 0x3000
}

/// A text is blank when trimming its white space leaves nothing.
pub open spec fn is_blank(s: Seq<char>) -> bool {
    forall|i: int| 0 <= i < s.len() ==> is_white_space(#[trigger] s[i])
}

/// Lexicographic order on texts, comparing characters by code point.
pub open spec fn seq_lt(a: Seq<char>, b: Seq<char>) -> bool
    decreases a.len(),
{
    if a.len() == 0 {
        b.len() > 0
    } else if b.len() == 0 {
        false
    } else if (a[0] as int) < (b[0] as int) {
        true
    } else if a[0] == b[0] {
        seq_lt(a.drop_first(), b.drop_first())
    } else {
        false
    }
}

/// Whether `c` is white space in the sense of `is_white_space`.
pub fn char_is_white_space(c: char) -> (r: bool)
    ensures
        r == is_white_space(c),
{
    let v = c as u32;
    (0x9 <= v && v <= 0xD) || v == 0x20 || v == 0x85 || v == 0xA0 || v == 0x1680 || (0x2000 <= v
        && v <= 0x200A) || v == 0x2028 || v == 0x2029 || v == 0x202F || v == 0x205F || v == 0x3000
}

/// `a` followed by `b`.
pub fn join_text(a: &str, b: &str) -> (r: String)
    ensures
        r@ == a@ + b@,
{
    let mut r = a.to_owned();
    r.append(b);
    r
}

/// The characters of `s`, in order.
pub fn chars_of(s: &str) -> (r: Vec<char>)
    ensures
        r@ == s@,
{
    broadcast use vstd::string::group_string_axioms;

    let mut r: Vec<char> = Vec::new();
    for c in it: s.chars()
        invariant
            it.seq() == s@,
            r@ == s@.take(it.index() as int),
    {
        r.push(c);
    }
    assert(r@ =~= s@);
    r
}

/// Whether `s` holds only white space, as `s.trim().is_empty()` decides.
pub fn str_is_blank(s: &str) -> (r: bool)
    ensures
        r == is_blank(s@),
{
    let chars = chars_of(s);
    let mut i: usize = 0;
    while i < chars.len()
        invariant
            chars@ == s@,
            i <= chars.len(),
            forall|j: int| 0 <= j < i ==> is_white_space(#[trigger] s@[j]),
        decreases chars.len() - i,
    {
        if !char_is_white_space(chars[i]) {
            assert(!is_white_space(s@[i as int]));
            return false;
        }
        i = i + 1;
    }
    true
}

/// `a` strictly precedes `b` in lexicographic code-point order.
pub fn chars_lt(a: &Vec<char>, b: &Vec<char>) -> (r: bool)
    ensures
        r == seq_lt(a@, b@),
{
    let mut i: usize = 0;
    assert(a@.skip(0) =~= a@);
    assert(b@.skip(0) =~= b@);
    while i < a.len() && i < b.len()
        invariant
            i <= a.len(),
            i <= b.len(),
            seq_lt(a@, b@) == seq_lt(a@.skip(i as int), b@.skip(i as int)),
        decreases a.len() - i,
    {
        let x = a[i];
        let y = b[i];
        assert(a@.skip(i as int)[0] == x);
        assert(b@.skip(i as int)[0] == y);
        if x < y {
            return true;
        }
        if x != y {
            return false;
        }
        assert(a@.skip(i as int).drop_first() =~= a@.skip(i + 1));
        assert(b@.skip(i as int).drop_first() =~= b@.skip(i + 1));
        i = i + 1;
    }
    i < b.len()
}

/// `a` is a proper prefix of `b`: shorter, and `b` starts with it.
pub open spec fn is_proper_prefix(a: Seq<char>, b: Seq<char>) -> bool {
    &&& a.len() < b.len()
    &&& forall|i: int| 0 <= i < a.len() ==> a[i] == b[i]
}

/// `a` and `b` agree before position `k`, and at `k` the character of `a` has the smaller
/// code point.
pub open spec fn first_difference_below(a: Seq<char>, b: Seq<char>, k: int) -> bool {
    &&& 0 <= k < a.len()
    &&& k < b.len()
    &&& forall|i: int| 0 <= i < k ==> a[i] == b[i]
    &&& (a[k] as int) < (b[k] as int)
}

/// Text order is the standard lexicographic order: `a` precedes `b` exactly when `a` is a
/// proper prefix of `b`, or at the first position where they differ `a` has the smaller
/// character. In particular the empty text precedes every other text.
pub proof fn lemma_seq_lt_is_lexicographic(a: Seq<char>, b: Seq<char>)
    ensures
        seq_lt(a, b) <==> (is_proper_prefix(a, b) || exists|k: int|
            #[trigger] first_difference_below(a, b, k)),
    decreases a.len(),
{
    if a.len() == 0 {
        assert forall|k: int| !#[trigger] first_difference_below(a, b, k) by {}
    } else if b.len() == 0 {
        assert forall|k: int| !#[trigger] first_difference_below(a, b, k) by {}
    } else if (a[0] as int) < (b[0] as int) {
        assert(first_difference_below(a, b, 0));
    } else if a[0] == b[0] {
        let a1 = a.drop_first();
        let b1 = b.drop_first();
        lemma_seq_lt_is_lexicographic(a1, b1);
        assert(is_proper_prefix(a, b) <==> is_proper_prefix(a1, b1)) by {
            if is_proper_prefix(a1, b1) {
                assert forall|i: int| 0 <= i < a.len() implies a[i] == b[i] by {
                    if i > 0 {
                        assert(a[i] == a1[i - 1]);
                        assert(b[i] == b1[i - 1]);
                    }
                }
            }
            if is_proper_prefix(a, b) {
                assert forall|i: int| 0 <= i < a1.len() implies a1[i] == b1[i] by {
                    assert(a[i + 1] == b[i + 1]);
                }
            }
        }
        if exists|k: int| #[trigger] first_difference_below(a1, b1, k) {
            let k = choose|k: int| #[trigger] first_difference_below(a1, b1, k);
            assert forall|i: int| 0 <= i < k + 1 implies a[i] == b[i] by {
                if i > 0 {
                    assert(a[i] == a1[i - 1]);
                    assert(b[i] == b1[i - 1]);
                }
            }
            assert(first_difference_below(a, b, k + 1));
        }
        if exists|k: int| #[trigger] first_difference_below(a, b, k) {
            let k = choose|k: int| #[trigger] first_difference_below(a, b, k);
            assert(k > 0);
            assert forall|i: int| 0 <= i < k - 1 implies a1[i] == b1[i] by {
                assert(a[i + 1] == b[i + 1]);
            }
            assert(first_difference_below(a1, b1, k - 1));
        }
    } else {
        assert(!is_proper_prefix(a, b));
        assert forall|k: int| !#[trigger] first_difference_below(a, b, k) by {
            if first_difference_below(a, b, k) && k > 0 {
                assert(a[0] == b[0]);
            }
        }
    }
}

/// A text precedes every longer text that starts with it.
pub proof fn lemma_proper_prefix_precedes(a: Seq<char>, b: Seq<char>)
    requires
        is_proper_prefix(a, b),
    ensures
        seq_lt(a, b),
        !seq_lt(b, a),
{
    lemma_seq_lt_is_lexicographic(a, b);
    lemma_seq_lt_asymmetric(a, b);
}

/// No text precedes itself.
pub proof fn lemma_seq_lt_irreflexive(a: Seq<char>)
    ensures
        !seq_lt(a, a),
    decreases a.len(),
{
    if a.len() > 0 {
        lemma_seq_lt_irreflexive(a.drop_first());
    }
}

/// Of two texts, at most one precedes the other.
pub proof fn lemma_seq_lt_asymmetric(a: Seq<char>, b: Seq<char>)
    requires
        seq_lt(a, b),
    ensures
        !seq_lt(b, a),
    decreases a.len(),
{
    if a.len() > 0 && b.len() > 0 && a[0] == b[0] {
        lemma_seq_lt_asymmetric(a.drop_first(), b.drop_first());
    }
}

/// Of two different texts, one precedes the other.
pub proof fn lemma_seq_lt_total(a: Seq<char>, b: Seq<char>)
    requires
        a != b,
    ensures
        seq_lt(a, b) || seq_lt(b, a),
    decreases a.len(),
{
    if a.len() == 0 {
        assert(b.len() > 0) by {
            if b.len() == 0 {
                assert(a =~= b);
            }
        }
    } else if b.len() == 0 {
    } else if a[0] == b[0] {
        if a.drop_first() =~= b.drop_first() {
            assert forall|i: int| 0 <= i < a.len() implies a[i] == b[i] by {
                if i > 0 {
                    assert(a[i] == a.drop_first()[i - 1]);
                    assert(b[i] == b.drop_first()[i - 1]);
                }
            }
            assert(a =~= b);
        }
        lemma_seq_lt_total(a.drop_first(), b.drop_first());
    } else {
    }
}

/// Precedence is transitive.
pub proof fn lemma_seq_lt_transitive(a: Seq<char>, b: Seq<char>, c: Seq<char>)
    requires
        seq_lt(a, b),
        seq_lt(b, c),
    ensures
        seq_lt(a, c),
    decreases a.len(),
{
    if a.len() > 0 && b.len() > 0 && c.len() > 0 && a[0] == b[0] && b[0] == c[0] {
        lemma_seq_lt_transitive(a.drop_first(), b.drop_first(), c.drop_first());
    }
}

/// Whether two texts hold the same characters.
pub fn text_eq(a: &str, b: &str) -> (r: bool)
    ensures
        r == (a@ == b@),
{
    a.to_owned() == b.to_owned()
}

/// The character of the decimal digit `d`.
pub open spec fn digit_char(d: int) -> char {
    seq!['0', '1', '2', '3', '4', '5', '6', '7', '8', '9'][d]
}

/// The decimal digits of `n`, most significant first, with no leading zero.
pub open spec fn decimal_digits(n: nat) -> Seq<char>
    decreases n,
{
    if n < 10 {
        seq![digit_char(n as int)]
    } else {
        decimal_digits(n / 10).push(digit_char((n % 10) as int))
    }
}

/// `v` written in decimal, with a leading `-` when negative: Rust's `Display` for integers.
pub open spec fn signed_decimal(v: int) -> Seq<char> {
    if v < 0 {
        seq!['-'] + decimal_digits((-v) as nat)
    } else {
        decimal_digits(v as nat)
    }
}

fn digit_text(d: u64) -> (r: &'static str)
    requires
        d < 10,
    ensures
        r@ == seq![digit_char(d as int)],
{
    if d == 0 {
        proof {
            reveal_strlit("0");
        }
        "0"
    } else if d == 1 {
        proof {
            reveal_strlit("1");
        }
        "1"
    } else if d == 2 {
        proof {
            reveal_strlit("2");
        }
        "2"
    } else if d == 3 {
        proof {
            reveal_strlit("3");
        }
        "3"
    } else if d == 4 {
        proof {
            reveal_strlit("4");
        }
        "4"
    } else if d == 5 {
        proof {
            reveal_strlit("5");
        }
        "5"
    } else if d == 6 {
        proof {
            reveal_strlit("6");
        }
        "6"
    } else if d == 7 {
        proof {
            reveal_strlit("7");
        }
        "7"
    } else if d == 8 {
        proof {
            reveal_strlit("8");
        }
        "8"
    } else {
        proof {
            reveal_strlit("9");
        }
        "9"
    }
}

/// `v` in decimal, as `format!("{v}")` writes it.
pub fn decimal_u64(v: u64) -> (r: String)
    ensures
        r@ == decimal_digits(v as nat),
    decreases v,
{
    if v < 10 {
        digit_text(v).to_owned()
    } else {
        let mut r = decimal_u64(v / 10);
        r.append(digit_text(v % 10));
        assert(r@ =~= decimal_digits(v as nat));
        r
    }
}

/// `v` in decimal, with a leading `-` when negative, as `format!("{v}")` writes it.
pub fn decimal_i64(v: i64) -> (r: String)
    ensures
        r@ == signed_decimal(v as int),
{
    if v < 0 {
        let magnitude: u64 = (0i128 - (v as i128)) as u64;
        proof {
            reveal_strlit("-");
        }
        let digits = decimal_u64(magnitude);
        join_text("-", digits.as_str())
    } else {
        decimal_u64(v as u64)
    }
}

/// Whether `c` is one of the ASCII digits `0` to `9`.
pub open spec fn is_ascii_digit(c: char) -> bool {
    '0' <= c <= '9'
}

/// A non-empty run of ASCII digits.
pub open spec fn is_digit_run(s: Seq<char>) -> bool {
    s.len() > 0 && forall|i: int| 0 <= i < s.len() ==> is_ascii_digit(#[trigger] s[i])
}

/// The number that a run of ASCII digits denotes in base ten.
pub open spec fn digit_run_value(s: Seq<char>) -> int
    decreases s.len(),
{
    if s.len() == 0 {
        0
    } else {
        digit_run_value(s.drop_last()) * 10 + ((s.last() as int) - ('0' as int))
    }
}

/// The integer that `s` spells as an optional `+` or `-` followed by decimal digits,
/// the text form that Rust's integer `FromStr` documents; `None` for any other text.
pub open spec fn spelled_integer(s: Seq<char>) -> Option<int> {
    if s.len() > 0 && s[0] == '-' && is_digit_run(s.drop_first()) {
        Some(-digit_run_value(s.drop_first()))
    } else if s.len() > 0 && s[0] == '+' && is_digit_run(s.drop_first()) {
        Some(digit_run_value(s.drop_first()))
    } else if is_digit_run(s) {
        Some(digit_run_value(s))
    } else {
        None
    }
}

#[verifier::external_type_specification]
#[verifier::external_body]
pub struct ExParseIntError(core::num::ParseIntError);

/// `str::parse::<i64>`: the spelled integer when `s` spells one that fits in `i64`,
/// and the parser's error otherwise.
#[verifier::external_body]
pub(crate) fn parse_i64(s: &str) -> (r: Result<i64, core::num::ParseIntError>)
    ensures
        match r {
            Ok(v) => spelled_integer(s@) == Some(v as int),
            Err(_) => !(spelled_integer(s@) matches Some(v) && i64::MIN <= v <= i64::MAX),
        },
{
    s.parse::<i64>()
}

/// `format!("{error}")` for an integer parse error. Nothing is stated of the text that
/// `ParseIntError`'s `Display` writes.
#[verifier::external_body]
pub(crate) fn parse_error_text(error: &core::num::ParseIntError) -> String {
    format!("{error}")
}

proof fn lemma_digit_char_value(d: int)
    requires
        0 <= d < 10,
    ensures
        is_ascii_digit(digit_char(d)),
        (digit_char(d) as int) - ('0' as int) == d,
{
    let digits = seq!['0', '1', '2', '3', '4', '5', '6', '7', '8', '9'];
    assert(digits[d] == digit_char(d));
    assert(digits[0] == '0' && digits[1] == '1' && digits[2] == '2' && digits[3] == '3');
    assert(digits[4] == '4' && digits[5] == '5' && digits[6] == '6' && digits[7] == '7');
    assert(digits[8] == '8' && digits[9] == '9');
}

/// The decimal digits of `n` are a digit run that denotes `n`.
pub proof fn lemma_decimal_digits_denote(n: nat)
    ensures
        is_digit_run(decimal_digits(n)),
        digit_run_value(decimal_digits(n)) == n,
    decreases n,
{
    if n < 10 {
        lemma_digit_char_value(n as int);
        let s = decimal_digits(n);
        assert(s.drop_last() =~= Seq::<char>::empty());
        assert(digit_run_value(s.drop_last()) == 0);
        assert(s.last() == digit_char(n as int));
        assert(digit_run_value(s) == digit_run_value(s.drop_last()) * 10 + ((s.last() as int) - ('0' as int)));
    } else {
        lemma_decimal_digits_denote(n / 10);
        lemma_digit_char_value((n % 10) as int);
        let s = decimal_digits(n);
        assert(s.drop_last() =~= decimal_digits(n / 10));
        assert(s.last() == digit_char((n % 10) as int));
        assert((n / 10) * 10 + n % 10 == n) by (nonlinear_arith);
        assert(digit_run_value(s) == digit_run_value(s.drop_last()) * 10 + ((s.last() as int) - ('0' as int)));
        assert forall|i: int| 0 <= i < s.len() implies is_ascii_digit(#[trigger] s[i]) by {
            if i < s.len() - 1 {
                assert(s[i] == decimal_digits(n / 10)[i]);
            }
        }
    }
}

/// Reading back an integer written in decimal gives the same integer: what a store
/// writes with `decimal_i64` is what `parse_i64` reads.
pub proof fn lemma_decimal_text_round_trips(v: int)
    ensures
        spelled_integer(signed_decimal(v)) == Some(v),
{
    if v < 0 {
        let digits = decimal_digits((-v) as nat);
        lemma_decimal_digits_denote((-v) as nat);
        let s = signed_decimal(v);
        assert(s.drop_first() =~= digits);
        assert(s[0] == '-');
    } else {
        let s = decimal_digits(v as nat);
        lemma_decimal_digits_denote(v as nat);
        assert(is_ascii_digit(s[0]));
    }
}

} // verus!
