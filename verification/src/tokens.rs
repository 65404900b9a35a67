//! Running token totals of a session.

use vstd::prelude::*;

use crate::json::Json;

verus! {

/// The tokens that a session has used so far, by kind.
#[derive(Clone, Copy, Debug, PartialEq, Eq, Structural)]
pub struct TokenTotals {
    pub input_tokens: u64,
    pub cached_input_tokens: u64,
    pub output_tokens: u64,
    pub reasoning_output_tokens: u64,
    pub total_tokens: u64,
}

/// No tokens of any kind.
pub open spec fn no_tokens() -> TokenTotals {
    TokenTotals {
        input_tokens: 0,
        cached_input_tokens: 0,
        output_tokens: 0,
        reasoning_output_tokens: 0,
        total_tokens: 0,
    }
}

/// `a - b`, or zero where `b` is larger.
pub open spec fn monus(a: u64, b: u64) -> u64 {
    if a >= b {
        (a - b) as u64
    } else {
        0
    }
}

/// The totals that a JSON value spells: an object with the unsigned integers
/// `input_tokens`, `output_tokens` and `total_tokens`. The two other kinds
/// count as zero where they are missing.
pub open spec fn totals_in(value: crate::json::JsonView) -> Option<TokenTotals> {
    match (
        value.unsigned_at("input_tokens"@),
        value.unsigned_at("output_tokens"@),
        value.unsigned_at("total_tokens"@),
    ) {
        (Some(input), Some(output), Some(total)) => Some(
            TokenTotals {
                input_tokens: input,
                cached_input_tokens: match value.unsigned_at("cached_input_tokens"@) {
                    Some(n) => n,
                    None => 0,
                },
                output_tokens: output,
                reasoning_output_tokens: match value.unsigned_at("reasoning_output_tokens"@) {
                    Some(n) => n,
                    None => 0,
                },
                total_tokens: total,
            },
        ),
        _ => None,
    }
}

impl TokenTotals {
    /// Whether no kind counts more here than in `other`.
    pub open spec fn within(self, other: TokenTotals) -> bool {
        &&& self.input_tokens <= other.input_tokens
        &&& self.cached_input_tokens <= other.cached_input_tokens
        &&& self.output_tokens <= other.output_tokens
        &&& self.reasoning_output_tokens <= other.reasoning_output_tokens
        &&& self.total_tokens <= other.total_tokens
    }

    /// What each kind counts here beyond `previous`.
    pub open spec fn minus(self, previous: TokenTotals) -> TokenTotals {
        TokenTotals {
            input_tokens: monus(self.input_tokens, previous.input_tokens),
            cached_input_tokens: monus(self.cached_input_tokens, previous.cached_input_tokens),
            output_tokens: monus(self.output_tokens, previous.output_tokens),
            reasoning_output_tokens: monus(
                self.reasoning_output_tokens,
                previous.reasoning_output_tokens,
            ),
            total_tokens: monus(self.total_tokens, previous.total_tokens),
        }
    }

    /// The totals that a JSON value spells, none where it spells none.
    pub fn from_value(value: &Json) -> (totals: Option<TokenTotals>)
        ensures
            totals == totals_in(value@),
    {
        let input_tokens: u64 = match value.u64_at("input_tokens") {
            Some(n) => n,
            None => return None,
        };
        let output_tokens: u64 = match value.u64_at("output_tokens") {
            Some(n) => n,
            None => return None,
        };
        let total_tokens: u64 = match value.u64_at("total_tokens") {
            Some(n) => n,
            None => return None,
        };
        Some(
            TokenTotals {
                input_tokens,
                cached_input_tokens: value.u64_at("cached_input_tokens").unwrap_or(0),
                output_tokens,
                reasoning_output_tokens: value.u64_at("reasoning_output_tokens").unwrap_or(0),
                total_tokens,
            },
        )
    }

    /// Whether no tokens are counted.
    pub fn is_zero(self) -> (zero: bool)
        ensures
            zero == (self == no_tokens()),
    {
        self.input_tokens == 0 && self.cached_input_tokens == 0 && self.output_tokens == 0
            && self.reasoning_output_tokens == 0 && self.total_tokens == 0
    }

    /// Whether some kind counts less here than in `previous`.
    pub fn any_decreased(self, previous: TokenTotals) -> (decreased: bool)
        ensures
            decreased == !previous.within(self),
    {
        self.input_tokens < previous.input_tokens || self.cached_input_tokens
            < previous.cached_input_tokens || self.output_tokens < previous.output_tokens
            || self.reasoning_output_tokens < previous.reasoning_output_tokens || self.total_tokens
            < previous.total_tokens
    }

    /// What each kind counts here beyond `previous`.
    pub fn saturating_sub(self, previous: TokenTotals) -> (rest: TokenTotals)
        ensures
            rest == self.minus(previous),
    {
        TokenTotals {
            input_tokens: self.input_tokens.saturating_sub(previous.input_tokens),
            cached_input_tokens: self.cached_input_tokens.saturating_sub(
                previous.cached_input_tokens,
            ),
            output_tokens: self.output_tokens.saturating_sub(previous.output_tokens),
            reasoning_output_tokens: self.reasoning_output_tokens.saturating_sub(
                previous.reasoning_output_tokens,
            ),
            total_tokens: self.total_tokens.saturating_sub(previous.total_tokens),
        }
    }
}

impl Default for TokenTotals {
    fn default() -> (totals: TokenTotals)
        ensures
            totals == no_tokens(),
    {
        TokenTotals {
            input_tokens: 0,
            cached_input_tokens: 0,
            output_tokens: 0,
            reasoning_output_tokens: 0,
            total_tokens: 0,
        }
    }
}

/// Totals are read where the three main kinds are unsigned integers, and hold
/// them as they are. The two other kinds count as zero where they are missing.
pub proof fn law_totals_are_those_reported(value: crate::json::JsonView)
    ensures
        totals_in(value) is Some <==> value.unsigned_at("input_tokens"@) is Some
            && value.unsigned_at("output_tokens"@) is Some && value.unsigned_at(
            "total_tokens"@,
        ) is Some,
        totals_in(value) matches Some(totals) ==> {
            &&& value.unsigned_at("input_tokens"@) == Some(totals.input_tokens)
            &&& value.unsigned_at("output_tokens"@) == Some(totals.output_tokens)
            &&& value.unsigned_at("total_tokens"@) == Some(totals.total_tokens)
            &&& value.unsigned_at("cached_input_tokens"@) == Some(totals.cached_input_tokens) || (
            value.unsigned_at("cached_input_tokens"@) is None && totals.cached_input_tokens == 0)
            &&& value.unsigned_at("reasoning_output_tokens"@) == Some(
                totals.reasoning_output_tokens,
            ) || (value.unsigned_at("reasoning_output_tokens"@) is None
                && totals.reasoning_output_tokens == 0)
        },
{
}

/// Where no kind went down, what is new and what was there before make up the
/// totals. A kind that went down has nothing new.
pub proof fn law_new_and_old_make_up_the_totals(totals: TokenTotals, before: TokenTotals)
    ensures
        ({
            let new = totals.minus(before);
            &&& new.input_tokens == if totals.input_tokens > before.input_tokens {
                totals.input_tokens - before.input_tokens
            } else {
                0
            }
            &&& new.cached_input_tokens == if totals.cached_input_tokens
                > before.cached_input_tokens {
                totals.cached_input_tokens - before.cached_input_tokens
            } else {
                0
            }
            &&& new.output_tokens == if totals.output_tokens > before.output_tokens {
                totals.output_tokens - before.output_tokens
            } else {
                0
            }
            &&& new.reasoning_output_tokens == if totals.reasoning_output_tokens
                > before.reasoning_output_tokens {
                totals.reasoning_output_tokens - before.reasoning_output_tokens
            } else {
                0
            }
            &&& new.total_tokens == if totals.total_tokens > before.total_tokens {
                totals.total_tokens - before.total_tokens
            } else {
                0
            }
        }),
        before.within(totals) <==> before.input_tokens <= totals.input_tokens
            && before.cached_input_tokens <= totals.cached_input_tokens && before.output_tokens
            <= totals.output_tokens && before.reasoning_output_tokens
            <= totals.reasoning_output_tokens && before.total_tokens <= totals.total_tokens,
        totals == no_tokens() <==> totals.input_tokens == 0 && totals.cached_input_tokens == 0
            && totals.output_tokens == 0 && totals.reasoning_output_tokens == 0
            && totals.total_tokens == 0,
{
}

} // verus!
