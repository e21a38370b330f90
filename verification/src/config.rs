use vstd::prelude::*;

verus! {

/// Startup configuration of the bot process. Values come from the
/// process environment; reading the environment is the caller's side,
/// the numeric fields are parsed with the verified parsers below, and a
/// missing or malformed value must abort startup.
#[allow(non_snake_case)]
#[derive(Eq, PartialEq)]
pub struct Config {
    pub API_URL: String,
    pub ID_INSTANCE: String,
    pub API_TOKEN_INSTANCE: String,
    pub ADMIN_CHAT_ID: String,
    pub WORKER_PORT: u16,
    pub WORKER_URL: String,
    pub SHOP_ADDRESS: String,
    pub SHOP_PHONE: String,
    pub NO_FILES_TIMEOUT: u64,
    pub REPEAT_COUNT: i32,
    pub REPEAT_TIMEOUT: u64,
    pub HOOK_PORT: u16,
    pub PAPER_PROMPT: String,
    pub SECRET_TOKEN: String,
    pub SIZE_PROMPT: String,
    pub FILES_DONE_PROMPT: String,
}

/// A decimal digit.
pub open spec fn is_dec_digit(c: char) -> bool {
    48 <= c as u32 <= 57
}

/// The numeric value of a decimal digit.
pub open spec fn digit_value(c: char) -> int {
    c as u32 - 48
}

/// The number written by a sequence of decimal digits, most significant
/// first.
pub open spec fn dec_value(s: Seq<char>) -> int
    decreases s.len(),
{
    if s.len() == 0 {
        0
    } else {
        dec_value(s.drop_last()) * 10 + digit_value(s.last())
    }
}

/// A non-empty, all-digit string.
pub open spec fn is_dec_string(s: Seq<char>) -> bool {
    s.len() > 0 && forall|i: int| 0 <= i < s.len() ==> is_dec_digit(s[i])
}

/// An all-digit string names a non-negative number.
pub proof fn lemma_dec_value_nonneg(s: Seq<char>)
    requires
        forall|i: int| 0 <= i < s.len() ==> is_dec_digit(s[i]),
    ensures
        dec_value(s) >= 0,
    decreases s.len(),
{
    if s.len() > 0 {
        lemma_dec_value_nonneg(s.drop_last());
        assert(dec_value(s.drop_last()) * 10 >= 0) by (nonlinear_arith)
            requires
                dec_value(s.drop_last()) >= 0,
        ;
    }
}

/// Reading more digits never shrinks the number: every prefix of an
/// all-digit string names a number no greater than the whole.
pub proof fn lemma_dec_value_prefix_le(s: Seq<char>, k: int)
    requires
        forall|i: int| 0 <= i < s.len() ==> is_dec_digit(s[i]),
        0 <= k <= s.len(),
    ensures
        dec_value(s.take(k)) <= dec_value(s),
    decreases s.len() - k,
{
    if k == s.len() {
        assert(s.take(k) =~= s);
    } else {
        let p = s.take(k + 1);
        assert(p.drop_last() =~= s.take(k));
        lemma_dec_value_nonneg(s.take(k));
        assert(dec_value(s.take(k)) <= dec_value(s.take(k)) * 10) by (nonlinear_arith)
            requires
                dec_value(s.take(k)) >= 0,
        ;
        lemma_dec_value_prefix_le(s, k + 1);
    }
}

/// Parse a non-negative decimal number: `Some` exactly on a non-empty
/// all-digit string whose value fits in a `u64`.
pub fn parse_u64(s: &str) -> (r: Option<u64>)
    ensures
        r matches Some(v) ==> is_dec_string(s@) && v as int == dec_value(s@),
        r is None ==> !is_dec_string(s@) || dec_value(s@) > u64::MAX,
{
    let n = s.unicode_len();
    if n == 0 {
        return None;
    }
    let mut acc: u64 = 0;
    let mut i: usize = 0;
    while i < n
        invariant
            0 < n == s@.len(),
            i <= n,
            forall|j: int| 0 <= j < i ==> is_dec_digit(s@[j]),
            acc as int == dec_value(s@.take(i as int)),
        decreases n - i,
    {
        let c = s.get_char(i);
        let cv = c as u32;
        if cv < 48 || cv > 57 {
            return None;
        }
        proof {
            assert(s@.take(i as int + 1).drop_last() =~= s@.take(i as int));
        }
        let d = (cv - 48) as u64;
        let widened = match acc.checked_mul(10) {
            Some(x) => x,
            None => {
                proof {
                    if is_dec_string(s@) {
                        lemma_dec_value_prefix_le(s@, i as int + 1);
                    }
                }
                return None;
            },
        };
        let next = match widened.checked_add(d) {
            Some(x) => x,
            None => {
                proof {
                    if is_dec_string(s@) {
                        lemma_dec_value_prefix_le(s@, i as int + 1);
                    }
                }
                return None;
            },
        };
        acc = next;
        i = i + 1;
    }
    proof {
        assert(s@.take(n as int) =~= s@);
    }
    Some(acc)
}

/// Parse a decimal port number: `Some` exactly on a non-empty all-digit
/// string whose value fits in a `u16`.
pub fn parse_u16(s: &str) -> (r: Option<u16>)
    ensures
        r matches Some(v) ==> is_dec_string(s@) && v as int == dec_value(s@),
        r is None ==> !is_dec_string(s@) || dec_value(s@) > u16::MAX,
{
    match parse_u64(s) {
        Some(v) => if v <= 65535 {
            Some(v as u16)
        } else {
            None
        },
        None => None,
    }
}

/// Parse a non-negative decimal count: `Some` exactly on a non-empty
/// all-digit string whose value fits in an `i32`.
pub fn parse_i32(s: &str) -> (r: Option<i32>)
    ensures
        r matches Some(v) ==> is_dec_string(s@) && v as int == dec_value(s@),
        r is None ==> !is_dec_string(s@) || dec_value(s@) > i32::MAX,
{
    match parse_u64(s) {
        Some(v) => if v <= 2147483647 {
            Some(v as i32)
        } else {
            None
        },
        None => None,
    }
}

} // verus!
