//! Command-line values with logic of their own.
use vstd::prelude::*;
use vstd::string::{StrSliceExecFns, StringExecFns};
use crate::clocks::format::{decimal, digit_char};

verus! {

/// The result of parsing `s` as a `u64` with `str::parse`: the value, or
/// the text of the parse error.
pub uninterp spec fn parsed_u64(s: Seq<char>) -> Result<u64, Seq<char>>;

/// `s` without a leading `+`, where it has one.
pub open spec fn unsigned_digits(s: Seq<char>) -> Seq<char> {
    if s.len() > 0 && s[0] == '+' {
        s.drop_first()
    } else {
        s
    }
}

/// Every character of `d` is an ASCII digit.
pub open spec fn all_ascii_digits(d: Seq<char>) -> bool {
    forall|i: int| 0 <= i < d.len() ==> '0' <= #[trigger] d[i] <= '9'
}

/// The value of the decimal digits `d`.
pub open spec fn digits_value(d: Seq<char>) -> nat
    decreases d.len(),
{
    if d.len() == 0 {
        0
    } else {
        digits_value(d.drop_last()) * 10 + ((d.last() as int) - ('0' as int)) as nat
    }
}

/// `s` is the text of a `u64`: an optional `+`, then one or more ASCII
/// digits whose value is below 2^64.
pub open spec fn is_u64_text(s: Seq<char>) -> bool {
    let d = unsigned_digits(s);
    &&& d.len() > 0
    &&& all_ascii_digits(d)
    &&& digits_value(d) < 0x1_0000_0000_0000_0000
}

/// Parse `s` as a decimal `u64` with `str::parse::<u64>`, turning a parse
/// error into its message.
///
/// Claims of the outside function: parsing succeeds exactly on the text of
/// a `u64` (an optional `+`, then ASCII digits, below 2^64) and gives its
/// value; the result is the named parse result of the text, which is also
/// what fixes the error message.
#[verifier::external_body]
fn parse_u64(s: &str) -> (r: Result<u64, String>)
    ensures
        r is Ok <==> is_u64_text(s@),
        r is Ok ==> r->Ok_0 == digits_value(unsigned_digits(s@)),
        r is Ok ==> parsed_u64(s@) is Ok && parsed_u64(s@)->Ok_0 == r->Ok_0,
        r is Err ==> parsed_u64(s@) is Err && parsed_u64(s@)->Err_0 == r->Err_0@,
{
    match s.parse::<u64>() {
        Ok(v) => Ok(v),
        Err(e) => Err(e.to_string()),
    }
}

/// The decimal rendering of a number is a string of ASCII digits with that
/// value.
proof fn lemma_decimal_digits(n: nat)
    ensures
        decimal(n).len() > 0,
        all_ascii_digits(decimal(n)),
        digits_value(decimal(n)) == n,
    decreases n,
{
    let d = decimal(n);
    if n < 10 {
        assert(d.drop_last() =~= Seq::<char>::empty());
        assert(digits_value(Seq::<char>::empty()) == 0);
        assert((digit_char(n) as int) - ('0' as int) == n);
    } else {
        lemma_decimal_digits(n / 10);
        assert(d.drop_last() =~= decimal(n / 10));
        assert(d.last() == digit_char(n % 10));
        assert((digit_char(n % 10) as int) - ('0' as int) == n % 10);
        assert forall|i: int| 0 <= i < d.len() implies '0' <= #[trigger] d[i] <= '9' by {
            if i < d.len() - 1 {
                assert(d[i] == decimal(n / 10)[i]);
            }
        }
    }
}

/// The decimal rendering of a `u64`, as its `Display` writes it, is the
/// text of a `u64` with that value, so parsing it gives the number back.
pub proof fn lemma_decimal_parses_back(v: u64)
    ensures
        is_u64_text(decimal(v as nat)),
        digits_value(unsigned_digits(decimal(v as nat))) == v,
{
    lemma_decimal_digits(v as nat);
    assert(decimal(v as nat)[0] != '+');
}

/// ASCII lower-casing of one character.
pub open spec fn ascii_lower(c: char) -> char {
    if 'A' <= c <= 'Z' {
        ((c as u32) + 32) as char
    } else {
        c
    }
}

/// `s` equals `t` ignoring ASCII case.
pub open spec fn eq_ignore_ascii_case(s: Seq<char>, t: Seq<char>) -> bool {
    s.len() == t.len() && forall|i: int| 0 <= i < s.len() ==> ascii_lower(#[trigger] s[i]) == ascii_lower(t[i])
}

/// The keyword selecting an unbounded count.
pub open spec fn infinite_keyword() -> Seq<char> {
    seq!['i', 'n', 'f', 'i', 'n', 'i', 't', 'e']
}

/// `c` equals the lower-case ASCII letter `w`, ignoring ASCII case.
fn matches_lower_letter(c: char, w: char) -> (r: bool)
    requires
        'a' <= w <= 'z',
    ensures
        r == (ascii_lower(c) == ascii_lower(w)),
{
    c == w || ('A' <= c && c <= 'Z' && (c as u32) + 32 == (w as u32))
}

/// `s` is the word `infinite`, in any ASCII case.
fn is_infinite_keyword(s: &str) -> (r: bool)
    ensures
        r == eq_ignore_ascii_case(s@, infinite_keyword()),
{
    let word = "infinite";
    proof {
        reveal_strlit("infinite");
    }
    let n = s.unicode_len();
    if n != 8 {
        return false;
    }
    let mut i: usize = 0;
    while i < 8
        invariant
            n == 8,
            s@.len() == 8,
            word@ == infinite_keyword(),
            i <= 8,
            forall|j: int| 0 <= j < i ==> ascii_lower(#[trigger] s@[j]) == ascii_lower(infinite_keyword()[j]),
        decreases 8 - i,
    {
        let w = word.get_char(i);
        assert('a' <= w <= 'z');
        if !matches_lower_letter(s.get_char(i), w) {
            return false;
        }
        i += 1;
    }
    true
}

/// Number of pings to send.
#[derive(Clone, Debug, PartialEq, Eq)]
pub enum Count {
    Infinite,
    Finite(u64),
}

impl Count {
    /// Parse a count: `infinite` in any ASCII case, or a number as
    /// `u64::from_str` reads it; otherwise a message naming the input and
    /// the parse error.
    pub fn parse(s: &str) -> (r: Result<Count, String>)
        ensures
            eq_ignore_ascii_case(s@, infinite_keyword()) ==> r == Ok::<Count, String>(Count::Infinite),
            !eq_ignore_ascii_case(s@, infinite_keyword()) ==> (r is Ok <==> is_u64_text(s@)),
            !eq_ignore_ascii_case(s@, infinite_keyword()) && is_u64_text(s@) ==> r == Ok::<Count, String>(
                Count::Finite(digits_value(unsigned_digits(s@)) as u64),
            ),
            !eq_ignore_ascii_case(s@, infinite_keyword()) ==> match parsed_u64(s@) {
                Ok(v) => r == Ok::<Count, String>(Count::Finite(v)),
                Err(m) => r matches Err(e) && e@ == "invalid count '"@ + s@ + "': "@ + m,
            },
    {
        if is_infinite_keyword(s) {
            Ok(Count::Infinite)
        } else {
            match parse_u64(s) {
                Ok(v) => Ok(Count::Finite(v)),
                Err(e) => {
                    let mut msg = String::from_str("invalid count '");
                    msg.append(s);
                    msg.append("': ");
                    msg.append(e.as_str());
                    Err(msg)
                },
            }
        }
    }
}

impl core::str::FromStr for Count {
    type Err = String;

    fn from_str(s: &str) -> (r: Result<Self, Self::Err>)
        ensures
            eq_ignore_ascii_case(s@, infinite_keyword()) ==> r == Ok::<Count, String>(Count::Infinite),
            !eq_ignore_ascii_case(s@, infinite_keyword()) ==> (r is Ok <==> is_u64_text(s@)),
            !eq_ignore_ascii_case(s@, infinite_keyword()) && is_u64_text(s@) ==> r == Ok::<Count, String>(
                Count::Finite(digits_value(unsigned_digits(s@)) as u64),
            ),
            !eq_ignore_ascii_case(s@, infinite_keyword()) ==> match parsed_u64(s@) {
                Ok(v) => r == Ok::<Count, String>(Count::Finite(v)),
                Err(m) => r matches Err(e) && e@ == "invalid count '"@ + s@ + "': "@ + m,
            },
    {
        Count::parse(s)
    }
}

} // verus!
