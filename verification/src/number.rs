use vstd::prelude::*;
use vstd::string::StrSliceExecFns;

verus! {

pub open spec fn is_digit(c: char) -> bool {
    '0' <= c && c <= '9'
}

pub open spec fn digit_val(c: char) -> int {
    c as int - '0' as int
}

pub open spec fn all_digits(s: Seq<char>) -> bool {
    forall|i: int| 0 <= i < s.len() ==> is_digit(s[i])
}

/// The integer a digit string denotes, most significant digit first.
pub open spec fn digits_val(s: Seq<char>) -> int
    decreases s.len(),
{
    if s.len() == 0 {
        0
    } else {
        digits_val(s.drop_last()) * 10 + digit_val(s.last())
    }
}

/// Index of the first `'.'` in `s`, or `s.len()` when there is none.
pub open spec fn dot_index(s: Seq<char>) -> int
    decreases s.len(),
{
    if s.len() == 0 {
        0
    } else if s[0] == '.' {
        0
    } else {
        1 + dot_index(s.drop_first())
    }
}

/// Whether an unsigned decimal body — digits, optionally followed by a dot
/// and more digits — is well formed.
pub open spec fn valid_number_body(s: Seq<char>) -> bool {
    let d = dot_index(s);
    &&& d > 0
    &&& all_digits(s.subrange(0, d))
    &&& (d == s.len() || (d + 1 < s.len() && all_digits(s.subrange(d + 1, s.len() as int))))
}

/// A JSON number's text read as whole seconds: the fractional part is cut
/// off (truncation toward zero), and `None` is returned when the text is not
/// plain decimal or its whole part does not fit an `i64`.
pub open spec fn spec_whole_seconds(s: Seq<char>) -> Option<i64> {
    let neg = s.len() > 0 && s[0] == '-';
    let body = if neg {
        s.drop_first()
    } else {
        s
    };
    if !valid_number_body(body) {
        None
    } else {
        let m = digits_val(body.subrange(0, dot_index(body)));
        if neg {
            if m <= 9223372036854775808 {
                Some((-m) as i64)
            } else {
                None
            }
        } else {
            if m <= 9223372036854775807 {
                Some(m as i64)
            } else {
                None
            }
        }
    }
}

proof fn lemma_dot_index_bounds(s: Seq<char>)
    ensures
        0 <= dot_index(s) <= s.len(),
        dot_index(s) < s.len() ==> s[dot_index(s)] == '.',
        forall|j: int| 0 <= j < dot_index(s) ==> s[j] != '.',
    decreases s.len(),
{
    if s.len() > 0 && s[0] != '.' {
        lemma_dot_index_bounds(s.drop_first());
        assert forall|j: int| 0 <= j < dot_index(s) implies s[j] != '.' by {
            if j > 0 {
                assert(s[j] == s.drop_first()[j - 1]);
            }
        }
    }
}

proof fn lemma_dot_index_at(s: Seq<char>, k: int)
    requires
        0 <= k <= s.len(),
        forall|j: int| 0 <= j < k ==> s[j] != '.',
        k < s.len() ==> s[k] == '.',
    ensures
        dot_index(s) == k,
    decreases s.len(),
{
    if s.len() > 0 && k > 0 {
        assert(forall|j: int| 0 <= j < k - 1 ==> s.drop_first()[j] == s[j + 1]);
        lemma_dot_index_at(s.drop_first(), k - 1);
    }
}

proof fn lemma_digits_val_nonneg(s: Seq<char>)
    requires
        all_digits(s),
    ensures
        digits_val(s) >= 0,
    decreases s.len(),
{
    if s.len() > 0 {
        assert(all_digits(s.drop_last()));
        lemma_digits_val_nonneg(s.drop_last());
    }
}

proof fn lemma_digits_val_prefix(s: Seq<char>, k: int)
    requires
        all_digits(s),
        0 <= k <= s.len(),
    ensures
        digits_val(s.subrange(0, k)) <= digits_val(s),
    decreases s.len(),
{
    if k == s.len() {
        assert(s.subrange(0, k) =~= s);
    } else {
        assert(all_digits(s.drop_last()));
        assert(s.drop_last().subrange(0, k) =~= s.subrange(0, k));
        lemma_digits_val_prefix(s.drop_last(), k);
        lemma_digits_val_nonneg(s.drop_last());
    }
}

/// Reads `text` as whole seconds, exactly as `spec_whole_seconds` says.
pub fn whole_seconds(text: &str) -> (r: Option<i64>)
    ensures
        r == spec_whole_seconds(text@),
{
    let n = text.unicode_len();
    if n == 0 {
        return None;
    }
    let neg = text.get_char(0) == '-';
    let b: usize = if neg {
        1
    } else {
        0
    };
    let ghost body = if neg {
        text@.drop_first()
    } else {
        text@
    };
    proof {
        assert(body =~= text@.subrange(b as int, n as int));
    }
    if b == n {
        proof {
            assert(dot_index(body) == 0);
        }
        return None;
    }
    if text.get_char(b) == '.' {
        proof {
            assert(body[0] == '.');
        }
        return None;
    }
    let cap: u64 = 922337203685477580;
    let rem: u64 = if neg {
        8
    } else {
        7
    };
    let ghost bound: int = if neg {
        9223372036854775808int
    } else {
        9223372036854775807int
    };
    let mut mag: u64 = 0;
    let mut i: usize = b;
    let mut saw_dot = false;
    let mut dot_at: usize = n;
    while i < n
        invariant
            b <= i <= n == text@.len(),
            n > b,
            neg == (text@.len() > 0 && text@[0] == '-'),
            b == if neg {
                1usize
            } else {
                0usize
            },
            body == (if neg {
                text@.drop_first()
            } else {
                text@
            }),
            body == text@.subrange(b as int, n as int),
            body[0] != '.',
            cap == 922337203685477580,
            rem == if neg { 8u64 } else { 7u64 },
            bound == if neg { 9223372036854775808int } else { 9223372036854775807int },
            10 * (cap as int) + (rem as int) == bound,
            !saw_dot ==> {
                &&& forall|j: int| 0 <= j < i - b ==> body[j] != '.'
                &&& all_digits(body.subrange(0, i - b))
                &&& mag == digits_val(body.subrange(0, i - b))
                &&& mag <= bound
            },
            saw_dot ==> {
                &&& b <= dot_at < i
                &&& dot_at > b
                &&& dot_at + 1 < n
                &&& dot_index(body) == dot_at - b
                &&& all_digits(body.subrange(0, dot_at - b))
                &&& mag == digits_val(body.subrange(0, dot_at - b))
                &&& mag <= bound
                &&& all_digits(body.subrange(dot_at - b + 1, i - b))
            },
        decreases n - i,
    {
        let c = text.get_char(i);
        if !saw_dot {
            if c == '.' {
                if i == b {
                    // unreachable: the first body character was checked above
                    return None;
                }
                proof {
                    lemma_dot_index_at(body, i - b);
                }
                saw_dot = true;
                dot_at = i;
                if i + 1 == n {
                    // a trailing dot with no fraction digits is not a number
                    proof {
                        assert(!valid_number_body(body));
                    }
                    return None;
                }
                proof {
                    assert(body.subrange(dot_at - b + 1, i + 1 - b) =~= Seq::<char>::empty());
                }
            } else if c < '0' || c > '9' {
                proof {
                    let ghost d = dot_index(body);
                    lemma_dot_index_bounds(body);
                    if d > i - b {
                        assert(body.subrange(0, d)[i - b] == body[i - b]);
                        assert(!all_digits(body.subrange(0, d)));
                    } else {
                        assert(body[d] == '.');
                        if d > 0 && all_digits(body.subrange(0, d)) {
                            assert(body.subrange(d + 1, n - b)[i - b - d - 1] == body[i - b]);
                        }
                    }
                    assert(!valid_number_body(body));
                }
                return None;
            } else {
                let d: u64 = ((c as u32) - 48) as u64;
                proof {
                    assert(body.subrange(0, i + 1 - b).drop_last() =~= body.subrange(0, i - b));
                    assert(body.subrange(0, i + 1 - b).last() == body[i - b]);
                }
                if mag > cap || (mag == cap && d > rem) {
                    // the whole part no longer fits an i64
                    proof {
                        let ghost dix = dot_index(body);
                        lemma_dot_index_bounds(body);
                        if valid_number_body(body) {
                            assert(dix >= i + 1 - b) by {
                                if dix < i + 1 - b {
                                    assert(body[dix] == '.');
                                }
                            };
                            let ghost ip = body.subrange(0, dix);
                            assert(ip.subrange(0, i + 1 - b) =~= body.subrange(0, i + 1 - b));
                            lemma_digits_val_prefix(ip, i + 1 - b);
                            assert(digits_val(body.subrange(0, i + 1 - b)) == 10 * (mag as int) + (
                            d as int));
                        }
                    }
                    return None;
                }
                mag = mag * 10 + d;
                i = i + 1;
                continue;
            }
        } else {
            if c < '0' || c > '9' {
                proof {
                    assert(body.subrange(dot_at - b + 1, n - b)[i - dot_at - 1] == body[i - b]);
                    assert(!valid_number_body(body));
                }
                return None;
            }
            proof {
                assert(body.subrange(dot_at - b + 1, i + 1 - b).drop_last() =~= body.subrange(
                    dot_at - b + 1,
                    i - b,
                ));
                assert(body.subrange(dot_at - b + 1, i + 1 - b).last() == body[i - b]);
            }
        }
        i = i + 1;
    }
    proof {
        if !saw_dot {
            lemma_dot_index_at(body, n - b);
            assert(body.subrange(0, n - b) =~= body);
        } else {
            assert(body.subrange(dot_at - b + 1, n - b) =~= body.subrange(
                dot_at - b + 1,
                i - b,
            ));
        }
        assert(valid_number_body(body));
    }
    if neg {
        if mag == 9223372036854775808 {
            Some(i64::MIN)
        } else {
            Some(-(mag as i64))
        }
    } else {
        Some(mag as i64)
    }
}

} // verus!
