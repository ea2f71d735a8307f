//! The service configuration and the reading of the chat allow-list.
//!
//! The configuration arrives from the command line or the environment
//! (parsed outside the library) as plain text. The one piece of logic in
//! it is the allow-list: every entry spells a signed decimal chat
//! identifier; an entry that does not parse stands for zero, and zeros —
//! invalid identifiers — are dropped.

use vstd::prelude::*;

use crate::poller::ChatFilter;

verus! {

/// Application settings loaded from environment or CLI args.
#[derive(Debug, Clone)]
pub struct Config {
    /// Environment to run the server in.
    pub environment: Option<String>,
    /// Level of logging.
    pub log_level: String,
    /// Address to bind the server to.
    pub address: String,
    /// Storage connection descriptor.
    pub database: String,
    /// Token of the remote messaging platform.
    pub telegram: String,
    /// Secret admin API key for API authentication.
    pub secret: String,
    /// Chats to monitor, each a signed decimal identifier.
    pub chats: Vec<String>,
}

/// Whether the character is a decimal digit.
pub open spec fn spec_is_digit(c: char) -> bool {
    48 <= c as u32 <= 57
}

/// The value of a decimal digit character.
pub open spec fn spec_digit_val(c: char) -> int {
    c as u32 - 48
}

/// Whether the text is one or more decimal digits and nothing else.
pub open spec fn spec_all_digits(s: Seq<char>) -> bool {
    s.len() > 0 && forall|i: int| 0 <= i < s.len() ==> spec_is_digit(#[trigger] s[i])
}

/// The value of a run of decimal digits, most significant first.
pub open spec fn spec_digits_value(s: Seq<char>) -> int
    decreases s.len(),
{
    if s.len() == 0 {
        0
    } else {
        10 * spec_digits_value(s.drop_last()) + spec_digit_val(s.last())
    }
}

/// The signed decimal integer the text spells: an optional sign, then one
/// or more digits, nothing else, and a value that fits; anything else is
/// nothing.
pub open spec fn spec_parse_i64(s: Seq<char>) -> Option<i64> {
    if s.len() == 0 {
        None
    } else {
        let negative = s[0] == '-';
        let digits = if s[0] == '-' || s[0] == '+' {
            s.drop_first()
        } else {
            s
        };
        if !spec_all_digits(digits) {
            None
        } else {
            let value = if negative {
                -spec_digits_value(digits)
            } else {
                spec_digits_value(digits)
            };
            if i64::MIN <= value <= i64::MAX {
                Some(value as i64)
            } else {
                None
            }
        }
    }
}

proof fn lemma_digits_value_nonneg(s: Seq<char>)
    requires
        forall|i: int| 0 <= i < s.len() ==> spec_is_digit(#[trigger] s[i]),
    ensures
        spec_digits_value(s) >= 0,
    decreases s.len(),
{
    if s.len() > 0 {
        assert(forall|i: int|
            0 <= i < s.drop_last().len() ==> spec_is_digit(#[trigger] s.drop_last()[i]));
        lemma_digits_value_nonneg(s.drop_last());
    }
}

/// A longer run of digits never has a smaller value.
proof fn lemma_digits_value_prefix(s: Seq<char>, k: int)
    requires
        0 <= k <= s.len(),
        forall|i: int| 0 <= i < s.len() ==> spec_is_digit(#[trigger] s[i]),
    ensures
        spec_digits_value(s) >= spec_digits_value(s.subrange(0, k)),
    decreases s.len() - k,
{
    if k < s.len() {
        let shorter = s.subrange(0, k);
        let longer = s.subrange(0, k + 1);
        assert(longer.drop_last() =~= shorter);
        assert(longer.last() == s[k]);
        assert(forall|i: int| 0 <= i < shorter.len() ==> spec_is_digit(#[trigger] shorter[i]));
        lemma_digits_value_nonneg(shorter);
        assert(spec_digits_value(longer) >= spec_digits_value(shorter));
        lemma_digits_value_prefix(s, k + 1);
    } else {
        assert(s.subrange(0, k) =~= s);
    }
}

/// Parse one configuration entry as a signed decimal chat identifier.
#[verifier::loop_isolation(false)]
pub fn parse_chat_id(s: &str) -> (parsed: Option<i64>)
    ensures
        parsed == spec_parse_i64(s@),
{
    let n = s.unicode_len();
    if n == 0 {
        return None;
    }
    let first = s.get_char(0);
    let negative = first == '-';
    let start: usize = if first == '-' || first == '+' {
        1
    } else {
        0
    };
    let ghost digits = if s@[0] == '-' || s@[0] == '+' {
        s@.drop_first()
    } else {
        s@
    };
    proof {
        assert(digits =~= s@.subrange(start as int, n as int));
    }
    if n == start {
        return None;
    }
    let mut acc: i64 = 0;
    let mut i: usize = start;
    while i < n
        invariant
            start <= i <= n,
            forall|k: int| 0 <= k < i - start ==> spec_is_digit(#[trigger] digits[k]),
            !negative ==> acc as int == spec_digits_value(digits.subrange(0, i - start)),
            negative ==> acc as int == -spec_digits_value(digits.subrange(0, i - start)),
        decreases n - i,
    {
        let c = s.get_char(i);
        let v = c as u32;
        if v < 48 || v > 57 {
            proof {
                assert(digits[i - start] == s@[i as int]);
                assert(!spec_all_digits(digits));
            }
            return None;
        }
        let d = (v - 48) as i64;
        let ghost upto = digits.subrange(0, i - start + 1);
        proof {
            assert(upto.drop_last() =~= digits.subrange(0, i - start));
            assert(upto.last() == digits[i - start]);
            assert(forall|k: int| 0 <= k < upto.len() ==> spec_is_digit(#[trigger] upto[k]));
        }
        let shifted = match acc.checked_mul(10) {
            Some(m) => m,
            None => {
                proof {
                    lemma_digits_value_nonneg(digits.subrange(0, i - start));
                    lemma_out_of_range(digits, i - start, acc as int, d as int, negative);
                }
                return None;
            },
        };
        let next = if negative {
            match shifted.checked_sub(d) {
                Some(x) => x,
                None => {
                    proof {
                        lemma_out_of_range(digits, i - start, acc as int, d as int, negative);
                    }
                    return None;
                },
            }
        } else {
            match shifted.checked_add(d) {
                Some(x) => x,
                None => {
                    proof {
                        lemma_out_of_range(digits, i - start, acc as int, d as int, negative);
                    }
                    return None;
                },
            }
        };
        acc = next;
        i += 1;
    }
    proof {
        assert(digits.subrange(0, n - start) =~= digits);
        assert(spec_all_digits(digits));
    }
    Some(acc)
}

/// When one more digit no longer fits the accumulator, the whole run of
/// digits — however it continues — spells a value outside the range.
proof fn lemma_out_of_range(digits: Seq<char>, j: int, acc: int, d: int, negative: bool)
    requires
        0 <= j < digits.len(),
        forall|k: int| 0 <= k < j ==> spec_is_digit(#[trigger] digits[k]),
        spec_is_digit(digits[j]),
        d == spec_digit_val(digits[j]),
        !negative ==> acc == spec_digits_value(digits.subrange(0, j)),
        negative ==> acc == -spec_digits_value(digits.subrange(0, j)),
        !(i64::MIN <= (if negative {
            acc * 10 - d
        } else {
            acc * 10 + d
        }) <= i64::MAX),
    ensures
        spec_all_digits(digits) ==> !(i64::MIN <= (if negative {
            -spec_digits_value(digits)
        } else {
            spec_digits_value(digits)
        }) <= i64::MAX),
{
    if spec_all_digits(digits) {
        let upto = digits.subrange(0, j + 1);
        assert(upto.drop_last() =~= digits.subrange(0, j));
        assert(upto.last() == digits[j]);
        if negative {
            assert(spec_digits_value(upto) == -(acc * 10 - d));
        } else {
            assert(spec_digits_value(upto) == acc * 10 + d);
        }
        lemma_digits_value_prefix(digits, j + 1);
        lemma_digits_value_nonneg(digits.subrange(0, j));
    }
}

/// The chat identifier one configuration entry stands for: the value it
/// spells, or zero when it spells none.
pub open spec fn spec_chat_id(s: Seq<char>) -> i64 {
    match spec_parse_i64(s) {
        Some(v) => v,
        None => 0,
    }
}

/// The allow-list the configuration entries stand for: each entry's
/// identifier, in order, with the invalid zeros dropped.
pub open spec fn spec_allow_list(entries: Seq<Seq<char>>) -> Seq<i64>
    decreases entries.len(),
{
    if entries.len() == 0 {
        Seq::empty()
    } else {
        spec_allow_list(entries.drop_last()) + (if spec_chat_id(entries.last()) != 0 {
            seq![spec_chat_id(entries.last())]
        } else {
            Seq::empty()
        })
    }
}

impl Config {
    /// Build the chat filter this configuration asks for: every entry
    /// parsed, unparsable entries standing for zero, zeros dropped.
    #[verifier::loop_isolation(false)]
    pub fn chat_filter(&self) -> (filter: ChatFilter)
        ensures
            filter.allow@ == spec_allow_list(self.chats@.map_values(|c: String| c@)),
    {
        let ghost entries = self.chats@.map_values(|c: String| c@);
        let mut allow: Vec<i64> = Vec::new();
        let mut i: usize = 0;
        while i < self.chats.len()
            invariant
                i <= self.chats.len(),
                allow@ == spec_allow_list(entries.subrange(0, i as int)),
            decreases self.chats.len() - i,
        {
            let id = match parse_chat_id(self.chats[i].as_str()) {
                Some(v) => v,
                None => 0,
            };
            if id != 0 {
                allow.push(id);
            }
            proof {
                let upto = entries.subrange(0, i + 1);
                assert(upto.drop_last() =~= entries.subrange(0, i as int));
                assert(upto.last() == entries[i as int]);
                assert(entries[i as int] == self.chats@[i as int]@);
                assert(id == spec_chat_id(entries[i as int]));
                assert(allow@ =~= spec_allow_list(upto));
            }
            i += 1;
        }
        proof {
            assert(entries.subrange(0, self.chats@.len() as int) =~= entries);
        }
        ChatFilter { allow }
    }
}

} // verus!
