//! The texts that a run shows: numbers in decimal and the lines built around them.

use vstd::prelude::*;
use vstd::string::StringExecFns;

verus! {

/// The character of the decimal digit `d`.
pub open spec fn digit_char(d: nat) -> char
    recommends
        d < 10,
{
    if d == 0 {
        '0'
    } else if d == 1 {
        '1'
    } else if d == 2 {
        '2'
    } else if d == 3 {
        '3'
    } else if d == 4 {
        '4'
    } else if d == 5 {
        '5'
    } else if d == 6 {
        '6'
    } else if d == 7 {
        '7'
    } else if d == 8 {
        '8'
    } else {
        '9'
    }
}

/// `n` written in decimal, without leading zeros.
pub open spec fn decimal(n: nat) -> Seq<char>
    decreases n,
{
    if n < 10 {
        seq![digit_char(n)]
    } else {
        decimal(n / 10).push(digit_char(n % 10))
    }
}

/// The line that closes a run.
pub open spec fn summary_text(downloaded: nat, failed: nat) -> Seq<char> {
    "Downloaded "@ + decimal(downloaded) + " repositories and saved them. Could not download "@
        + decimal(failed) + " repositories."@
}

/// The line that reports one repository that could not be backed up.
pub open spec fn failure_text(name: Seq<char>, cause: Seq<char>) -> Seq<char> {
    "Error downloading repo: "@ + name + ". Err: "@ + cause
}

/// The line that reports one archive that was stored.
pub open spec fn saved_text(path: Seq<char>) -> Seq<char> {
    "Saved zip at "@ + path
}

fn digit_str(d: u64) -> (text: &'static str)
    requires
        d < 10,
    ensures
        text@ == seq![digit_char(d as nat)],
{
    proof {
        reveal_strlit("0");
        reveal_strlit("1");
        reveal_strlit("2");
        reveal_strlit("3");
        reveal_strlit("4");
        reveal_strlit("5");
        reveal_strlit("6");
        reveal_strlit("7");
        reveal_strlit("8");
        reveal_strlit("9");
    }
    let text = if d == 0 {
        "0"
    } else if d == 1 {
        "1"
    } else if d == 2 {
        "2"
    } else if d == 3 {
        "3"
    } else if d == 4 {
        "4"
    } else if d == 5 {
        "5"
    } else if d == 6 {
        "6"
    } else if d == 7 {
        "7"
    } else if d == 8 {
        "8"
    } else {
        "9"
    };
    assert(text@ =~= seq![digit_char(d as nat)]);
    text
}

/// Writes `n` in decimal.
pub fn decimal_string(n: u64) -> (text: String)
    ensures
        text@ == decimal(n as nat),
    decreases n,
{
    if n < 10 {
        String::from_str(digit_str(n))
    } else {
        let mut text = decimal_string(n / 10);
        text.append(digit_str(n % 10));
        assert(text@ =~= decimal((n / 10) as nat).push(digit_char((n % 10) as nat)));
        text
    }
}

/// The line that closes a run: how many repositories were stored and how many were not.
pub fn summary_message(downloaded: u64, failed: u64) -> (text: String)
    ensures
        text@ == summary_text(downloaded as nat, failed as nat),
{
    let mut text = String::from_str("Downloaded ");
    text.append(decimal_string(downloaded).as_str());
    text.append(" repositories and saved them. Could not download ");
    text.append(decimal_string(failed).as_str());
    text.append(" repositories.");
    text
}

/// The line that reports that the repository `name` could not be backed up, and why.
pub fn failure_line(name: &str, cause: &str) -> (text: String)
    ensures
        text@ == failure_text(name@, cause@),
{
    let mut text = String::from_str("Error downloading repo: ");
    text.append(name);
    text.append(". Err: ");
    text.append(cause);
    text
}

/// The line that reports that an archive was stored at `path`.
pub fn saved_line(path: &str) -> (text: String)
    ensures
        text@ == saved_text(path@),
{
    let mut text = String::from_str("Saved zip at ");
    text.append(path);
    text
}

} // verus!
