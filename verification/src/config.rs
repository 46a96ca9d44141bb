//! Run configuration: the positional arguments and their parsing.
//!
//! A run takes a payment amount, a certificate path, a credential path and an
//! optional `host:port` address with a documented default. The amount parser
//! is verified against an exact grammar: an optional sign, then at least one
//! decimal digit, denoting a value that fits a signed 64-bit integer.

use vstd::prelude::*;

verus! {

/// The magnitude of the most negative signed 64-bit value, `2^63`.
pub const I64_MIN_MAGNITUDE: u128 = 9223372036854775808;

/// A configuration error: fatal, detected before any probing starts.
#[derive(Clone, Copy, Debug, PartialEq, Eq, Structural)]
pub enum ConfigError {
    /// Fewer positional arguments than the run requires.
    NotEnoughArgs,
    /// The payment amount did not parse as a signed 64-bit integer.
    BadAmount,
    /// The address is not a usable `host:port`; detected where the socket
    /// address is resolved, outside the library.
    BadAddress,
}

/// One run's configuration, with every default made explicit.
#[derive(Clone, Debug, PartialEq, Eq)]
pub struct Config {
    /// The payment amount to probe routes for, in the smallest currency unit.
    pub amount: i64,
    /// Where the transport certificate is read from.
    pub cert_path: String,
    /// Where the access credential is read from.
    pub credential_path: String,
    /// The remote endpoint, as `host:port`.
    pub address: String,
}

pub open spec fn is_dec_digit(c: char) -> bool {
    48 <= c as int <= 57
}

pub open spec fn char_digit(c: char) -> int {
    c as int - 48
}

pub open spec fn all_dec_digits(s: Seq<char>) -> bool {
    forall|i: int| 0 <= i < s.len() ==> is_dec_digit(#[trigger] s[i])
}

/// The value a string of decimal digits denotes.
pub open spec fn dec_val(s: Seq<char>) -> int
    decreases s.len(),
{
    if s.len() == 0 {
        0
    } else {
        dec_val(s.drop_last()) * 10 + char_digit(s.last())
    }
}

/// The digit part of an amount literal: everything after an optional leading
/// sign.
pub open spec fn amount_digits(s: Seq<char>) -> Seq<char> {
    if s.len() > 0 && (s[0] == '+' || s[0] == '-') {
        s.drop_first()
    } else {
        s
    }
}

pub open spec fn amount_sign(s: Seq<char>) -> int {
    if s.len() > 0 && s[0] == '-' {
        -1
    } else {
        1
    }
}

/// The value an amount literal denotes.
pub open spec fn amount_value(s: Seq<char>) -> int {
    amount_sign(s) * dec_val(amount_digits(s))
}

/// A valid amount literal: an optional sign, then at least one decimal
/// digit, denoting a value that fits a signed 64-bit integer.
pub open spec fn valid_amount(s: Seq<char>) -> bool {
    &&& amount_digits(s).len() > 0
    &&& all_dec_digits(amount_digits(s))
    &&& i64::MIN <= amount_value(s) <= i64::MAX
}

proof fn lemma_dec_val_nonneg(s: Seq<char>)
    requires
        all_dec_digits(s),
    ensures
        dec_val(s) >= 0,
    decreases s.len(),
{
    if s.len() > 0 {
        assert(all_dec_digits(s.drop_last()));
        lemma_dec_val_nonneg(s.drop_last());
        assert(dec_val(s.drop_last()) * 10 >= 0) by (nonlinear_arith)
            requires
                dec_val(s.drop_last()) >= 0,
        ;
    }
}

/// Appending digits never shrinks the denoted value: a prefix of a digit
/// string denotes at most what the whole string denotes.
proof fn lemma_dec_val_prefix_le(s: Seq<char>, m: int)
    requires
        all_dec_digits(s),
        0 <= m <= s.len(),
    ensures
        dec_val(s.subrange(0, m)) <= dec_val(s),
    decreases s.len() - m,
{
    if m == s.len() {
        assert(s.subrange(0, m) =~= s);
    } else {
        lemma_dec_val_prefix_le(s, m + 1);
        let p = s.subrange(0, m);
        let q = s.subrange(0, m + 1);
        assert(q.drop_last() =~= p);
        assert(q.last() == s[m]);
        assert(all_dec_digits(p));
        lemma_dec_val_nonneg(p);
        assert(dec_val(p) * 10 + char_digit(s[m]) >= dec_val(p)) by (nonlinear_arith)
            requires
                dec_val(p) >= 0,
                char_digit(s[m]) >= 0,
        ;
    }
}

/// Parses the payment amount exactly as a signed 64-bit decimal literal:
/// `Ok` with the denoted value on every valid literal, `BadAmount` on
/// everything else (empty, a bare sign, a non-digit, or a value out of
/// range).
pub fn parse_sats_amount(s: &str) -> (r: Result<i64, ConfigError>)
    ensures
        valid_amount(s@) ==> (r matches Ok(v) && v == amount_value(s@)),
        !valid_amount(s@) ==> r == Err::<i64, ConfigError>(ConfigError::BadAmount),
{
    let len = s.unicode_len();
    let mut start: usize = 0;
    let mut negative = false;
    if len > 0 {
        let c0 = s.get_char(0);
        if c0 == '-' {
            negative = true;
            start = 1;
        } else if c0 == '+' {
            start = 1;
        }
    }
    let ghost digits = amount_digits(s@);
    proof {
        assert(digits =~= s@.subrange(start as int, len as int));
        assert(negative <==> amount_sign(s@) == -1);
    }
    if start == len {
        return Err(ConfigError::BadAmount);
    }
    let mut acc: u128 = 0;
    let mut j: usize = start;
    while j < len
        invariant
            start <= j <= len,
            len == s@.len(),
            digits == amount_digits(s@),
            digits =~= s@.subrange(start as int, len as int),
            all_dec_digits(s@.subrange(start as int, j as int)),
            acc == dec_val(s@.subrange(start as int, j as int)),
            acc <= I64_MIN_MAGNITUDE,
        decreases len - j,
    {
        let c = s.get_char(j);
        let cu = c as u32;
        if cu < 48 || cu > 57 {
            proof {
                assert(digits[j - start] == s@[j as int]);
                assert(!is_dec_digit(digits[j - start]));
            }
            return Err(ConfigError::BadAmount);
        }
        let d = (cu - 48) as u128;
        let ghost prev = s@.subrange(start as int, j as int);
        proof {
            let ext = s@.subrange(start as int, j + 1);
            assert(ext.drop_last() =~= prev);
            assert(ext.last() == s@[j as int]);
            assert forall|k: int| 0 <= k < ext.len() implies is_dec_digit(#[trigger] ext[k]) by {
                if k < ext.len() - 1 {
                    assert(ext[k] == prev[k]);
                } else {
                    assert(ext[k] == s@[j as int]);
                }
            }
        }
        acc = acc * 10 + d;
        j = j + 1;
        if acc > I64_MIN_MAGNITUDE {
            proof {
                if all_dec_digits(digits) {
                    let m = j - start;
                    assert(digits.subrange(0, m as int) =~= s@.subrange(start as int, j as int));
                    lemma_dec_val_prefix_le(digits, m as int);
                }
                assert(!valid_amount(s@));
            }
            return Err(ConfigError::BadAmount);
        }
    }
    proof {
        assert(s@.subrange(start as int, len as int) =~= digits);
    }
    if negative {
        let v: i64 = if acc == I64_MIN_MAGNITUDE {
            i64::MIN
        } else {
            -(acc as i64)
        };
        proof {
            assert(valid_amount(s@));
            assert(v == amount_value(s@));
        }
        Ok(v)
    } else {
        if acc > 9223372036854775807u128 {
            proof {
                assert(amount_value(s@) == dec_val(digits));
                assert(!valid_amount(s@));
            }
            return Err(ConfigError::BadAmount);
        }
        let v: i64 = acc as i64;
        proof {
            assert(valid_amount(s@));
            assert(v == amount_value(s@));
        }
        Ok(v)
    }
}

/// The default RPC endpoint, used when no address argument is given.
pub fn default_address() -> (s: &'static str)
    ensures
        s@ == "127.0.0.1:10009"@,
{
    "127.0.0.1:10009"
}

impl Config {
    /// Builds the run configuration from the process arguments, program name
    /// first: amount, certificate path, credential path, then an optional
    /// `host:port` that defaults to `127.0.0.1:10009`. Too few arguments or
    /// an unparseable amount are rejected, in that order.
    pub fn from_args(args: &Vec<String>) -> (r: Result<Config, ConfigError>)
        ensures
            args@.len() < 4 ==> r == Err::<Config, ConfigError>(ConfigError::NotEnoughArgs),
            args@.len() >= 4 && !valid_amount(args@[1]@) ==> r == Err::<Config, ConfigError>(
                ConfigError::BadAmount,
            ),
            args@.len() >= 4 && valid_amount(args@[1]@) ==> (r matches Ok(c) && {
                &&& c.amount == amount_value(args@[1]@)
                &&& c.cert_path@ == args@[2]@
                &&& c.credential_path@ == args@[3]@
                &&& c.address@ == if args@.len() >= 5 {
                    args@[4]@
                } else {
                    "127.0.0.1:10009"@
                }
            }),
    {
        if args.len() < 4 {
            return Err(ConfigError::NotEnoughArgs);
        }
        let amount = match parse_sats_amount(args[1].as_str()) {
            Ok(v) => v,
            Err(_) => {
                return Err(ConfigError::BadAmount);
            },
        };
        let address = if args.len() >= 5 {
            args[4].clone()
        } else {
            String::from_str(default_address())
        };
        Ok(
            Config {
                amount,
                cert_path: args[2].clone(),
                credential_path: args[3].clone(),
                address,
            },
        )
    }
}

} // verus!
