//! The notices the processor has logged: their exact text.

use vstd::prelude::*;
use vstd::string::StringExecFns;

verus! {

/// The character of a decimal digit.
pub open spec fn digit_char(digit: nat) -> char
    recommends
        digit < 10,
{
    if digit == 0 {
        '0'
    } else if digit == 1 {
        '1'
    } else if digit == 2 {
        '2'
    } else if digit == 3 {
        '3'
    } else if digit == 4 {
        '4'
    } else if digit == 5 {
        '5'
    } else if digit == 6 {
        '6'
    } else if digit == 7 {
        '7'
    } else if digit == 8 {
        '8'
    } else {
        '9'
    }
}

/// A number in decimal digits, without leading zeros.
pub open spec fn decimal_text(n: nat) -> Seq<char>
    decreases n,
{
    if n < 10 {
        seq![digit_char(n)]
    } else {
        decimal_text(n / 10).push(digit_char(n % 10))
    }
}

/// Text of the notice that a pool was initialized.
pub open spec fn pool_initialized_text(pool: Seq<char>, amount: u64) -> Seq<char> {
    "Pool initialized: "@ + pool + ", Amount: "@ + decimal_text(amount as nat)
}

/// Text of the notice that an arbitrage was executed.
pub open spec fn arbitrage_executed_text(source: Seq<char>, destination: Seq<char>, amount: u64) -> Seq<
    char,
> {
    "Arbitrage executed from "@ + source + " to "@ + destination + " with amount: "@
        + decimal_text(amount as nat)
}

/// Text of the notice that a rebalance was asked for.
pub open spec fn rebalance_requested_text(
    amount: u64,
    source: Seq<char>,
    destination: Seq<char>,
) -> Seq<char> {
    "Rebalancing "@ + decimal_text(amount as nat) + " tokens from "@ + source + " to "@
        + destination
}

fn digit_str(digit: u64) -> (text: &'static str)
    requires
        digit < 10,
    ensures
        text@ == seq![digit_char(digit as nat)],
{
    proof {
        reveal_strlit("0");
        reveal_strlit("1");
        reveal_strlit("2");
        reveal_strlit("3");
        reveal_strlit("4");
        reveal_strlit("5");
        reveal_strlit("6");
        reveal_strlit("7");
        reveal_strlit("8");
        reveal_strlit("9");
    }
    let text = if digit == 0 {
        "0"
    } else if digit == 1 {
        "1"
    } else if digit == 2 {
        "2"
    } else if digit == 3 {
        "3"
    } else if digit == 4 {
        "4"
    } else if digit == 5 {
        "5"
    } else if digit == 6 {
        "6"
    } else if digit == 7 {
        "7"
    } else if digit == 8 {
        "8"
    } else {
        "9"
    };
    assert(text@ =~= seq![digit_char(digit as nat)]);
    text
}

/// Appends `n` in decimal digits to `text`.
pub fn append_decimal(text: &mut String, n: u64)
    ensures
        final(text)@ == old(text)@ + decimal_text(n as nat),
    decreases n,
{
    if n >= 10 {
        append_decimal(text, n / 10);
    }
    text.append(digit_str(n % 10));
    assert(text@ =~= old(text)@ + decimal_text(n as nat));
}

/// The notice that the pool at `pool_pubkey` was initialized with `amount`.
pub fn log_pool_initialized(pool_pubkey: &str, amount: u64) -> (message: String)
    ensures
        message@ == pool_initialized_text(pool_pubkey@, amount),
{
    let mut message = String::from_str("Pool initialized: ");
    message.append(pool_pubkey);
    message.append(", Amount: ");
    append_decimal(&mut message, amount);
    message
}

/// The notice that `amount` was moved from `source_pool` to `dest_pool`.
pub fn log_arbitrage_executed(source_pool: &str, dest_pool: &str, amount: u64) -> (message: String)
    ensures
        message@ == arbitrage_executed_text(source_pool@, dest_pool@, amount),
{
    let mut message = String::from_str("Arbitrage executed from ");
    message.append(source_pool);
    message.append(" to ");
    message.append(dest_pool);
    message.append(" with amount: ");
    append_decimal(&mut message, amount);
    message
}

/// The notice that a rebalance of `amount` from `source_pool` to `dest_pool`
/// was asked for.
pub fn log_rebalance_requested(amount: u64, source_pool: &str, dest_pool: &str) -> (message: String)
    ensures
        message@ == rebalance_requested_text(amount, source_pool@, dest_pool@),
{
    let mut message = String::from_str("Rebalancing ");
    append_decimal(&mut message, amount);
    message.append(" tokens from ");
    message.append(source_pool);
    message.append(" to ");
    message.append(dest_pool);
    message
}

} // verus!
