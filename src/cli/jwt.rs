use vstd::prelude::*;

verus! {

/// Whether a character is an ASCII digit.
pub open spec fn is_digit(c: char) -> bool {
    '0' <= c && c <= '9'
}

/// The number that a string of ASCII digits writes in decimal.
pub open spec fn digits_value(s: Seq<char>) -> nat
    decreases s.len(),
{
    if s.len() == 0 {
        0
    } else {
        digits_value(s.drop_last()) * 10 + (s.last() as nat - '0' as nat) as nat
    }
}

/// The seconds in one unit of a duration suffix: `s`, `m`, `h` or `d`.
pub open spec fn unit_seconds(c: char) -> Option<nat> {
    if c == 's' {
        Some(1)
    } else if c == 'm' {
        Some(60)
    } else if c == 'h' {
        Some(3600)
    } else if c == 'd' {
        Some(86400)
    } else {
        None
    }
}

/// The seconds that a duration such as `90m` or `1d` stands for: one or
/// more decimal digits, then one unit letter.
pub open spec fn duration_of(s: Seq<char>) -> Option<nat> {
    if s.len() >= 2 && (forall|i: int| 0 <= i < s.len() - 1 ==> is_digit(#[trigger] s[i]))
        && unit_seconds(s.last()) is Some {
        Some(digits_value(s.drop_last()) * unit_seconds(s.last())->Some_0)
    } else {
        None
    }
}

/// The expiry that a duration gives from `now`, where it fits in `usize`.
pub open spec fn expiry_of(s: Seq<char>, now: nat) -> Option<nat> {
    match duration_of(s) {
        Some(d) => if now + d <= usize::MAX {
            Some(now + d)
        } else {
            None
        },
        None => None,
    }
}

proof fn lemma_digits_grow(s: Seq<char>, i: int)
    requires
        0 <= i <= s.len(),
        forall|k: int| 0 <= k < s.len() ==> is_digit(#[trigger] s[k]),
    ensures
        digits_value(s.subrange(0, i)) <= digits_value(s),
    decreases s.len() - i,
{
    if i < s.len() {
        lemma_digits_grow(s, i + 1);
        let t = s.subrange(0, i + 1);
        assert(t.drop_last() =~= s.subrange(0, i));
    } else {
        assert(s.subrange(0, i) =~= s);
    }
}

/// Reads a duration such as `30s`, `15m`, `2h` or `1d` as seconds; fails on
/// any other text and on one whose seconds do not fit in `usize`.
pub fn parse_duration(s: &str) -> (r: Result<usize, &'static str>)
    ensures
        match duration_of(s@) {
            Some(d) => if d <= usize::MAX {
                r == Ok::<usize, &'static str>(d as usize)
            } else {
                r is Err
            },
            None => r is Err,
        },
{
    let n = s.unicode_len();
    if n < 2 {
        return Err("invalid duration");
    }
    let unit = s.get_char(n - 1);
    let per: usize = if unit == 's' {
        1
    } else if unit == 'm' {
        60
    } else if unit == 'h' {
        3600
    } else if unit == 'd' {
        86400
    } else {
        return Err("invalid duration unit");
    };
    let ghost digits = s@.drop_last();
    assert(s@.last() == unit);
    let mut num: usize = 0;
    let mut i: usize = 0;
    while i < n - 1
        invariant
            n == s@.len(),
            n >= 2,
            per >= 1,
            unit_seconds(s@.last()) == Some(per as nat),
            digits == s@.subrange(0, n - 1),
            i <= n - 1,
            forall|k: int| 0 <= k < i ==> is_digit(#[trigger] s@[k]),
            num == digits_value(digits.subrange(0, i as int)),
        decreases n - 1 - i,
    {
        let c = s.get_char(i);
        if !('0' <= c && c <= '9') {
            assert(!is_digit(s@[i as int]));
            return Err("invalid duration");
        }
        let d = (c as u32 - '0' as u32) as usize;
        assert(digits.subrange(0, i + 1).drop_last() =~= digits.subrange(0, i as int));
        assert(digits.subrange(0, i + 1).last() == c);
        assert(digits_value(digits.subrange(0, i + 1)) == num * 10 + d);
        let next = match num.checked_mul(10) {
            Some(m) => m.checked_add(d),
            None => None,
        };
        match next {
            Some(v) => {
                num = v;
            },
            None => {
                proof {
                    if duration_of(s@) is Some {
                        assert forall|k: int| 0 <= k < digits.len() implies is_digit(
                            #[trigger] digits[k],
                        ) by {
                            assert(digits[k] == s@[k]);
                        }
                        lemma_digits_grow(digits, i + 1);
                        let whole = digits_value(digits);
                        assert(whole * per >= whole) by (nonlinear_arith)
                            requires
                                per >= 1,
                        ;
                    }
                }
                return Err("invalid duration");
            },
        }
        i += 1;
    }
    assert(digits.subrange(0, (n - 1) as int) =~= digits);
    assert(forall|k: int| 0 <= k < s@.len() - 1 ==> is_digit(#[trigger] s@[k]));
    match num.checked_mul(per) {
        Some(v) => Ok(v),
        None => Err("invalid duration"),
    }
}


/// The expiry that a duration gives from `now`; fails on text that is no
/// duration and where the expiry does not fit in `usize`.
pub fn expiry_from(s: &str, now: usize) -> (r: Result<usize, &'static str>)
    ensures
        match expiry_of(s@, now as nat) {
            Some(e) => r == Ok::<usize, &'static str>(e as usize),
            None => r is Err,
        },
{
    match parse_duration(s) {
        Ok(d) => match now.checked_add(d) {
            Some(e) => Ok(e),
            None => Err("invalid duration"),
        },
        Err(e) => Err(e),
    }
}

/// Relies on `chrono::Utc::now` and `DateTime::timestamp`: the current time
/// in seconds since the epoch, of which nothing is stated.
#[verifier::external_body]
fn now_seconds() -> (r: usize) {
    chrono::Utc::now().timestamp() as usize
}

/// The expiry, in seconds since the epoch, of a token that lives for the
/// duration `s` from now.
pub fn parse_exp(s: &str) -> (r: Result<usize, &'static str>)
    ensures
        duration_of(s@) is None ==> r is Err,
        r matches Ok(e) ==> exists|now: nat| expiry_of(s@, now) == Some(e as nat),
{
    let now = now_seconds();
    expiry_from(s, now)
}

} // verus!
