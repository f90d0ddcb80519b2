use vstd::prelude::*;

use vstd::string::StringExecFns;

use crate::epoch::{spec_current_epoch, spec_epoch_start, next_epoch_ts, EPOCH_LENGTH};

verus! {

/// The decimal digit character for `d`.
pub open spec fn spec_digit_char(d: int) -> char {
    if d == 0 {
        '0'
    } else if d == 1 {
        '1'
    } else if d == 2 {
        '2'
    } else if d == 3 {
        '3'
    } else if d == 4 {
        '4'
    } else if d == 5 {
        '5'
    } else if d == 6 {
        '6'
    } else if d == 7 {
        '7'
    } else if d == 8 {
        '8'
    } else {
        '9'
    }
}

/// `n` rendered in decimal without padding, for `0 <= n < 100`.
pub open spec fn spec_decimal(n: int) -> Seq<char> {
    if n < 10 {
        seq![spec_digit_char(n)]
    } else {
        seq![spec_digit_char(n / 10), spec_digit_char(n % 10)]
    }
}

/// The cron line that fires once daily at the minute and hour (UTC) of the
/// unix timestamp `t`: second 0, that minute, that hour, every day.
pub open spec fn spec_daily_cron_at(t: int) -> Seq<char> {
    seq!['0', ' '] + spec_decimal(t / 60 % 60) + seq![' '] + spec_decimal(t / 3600 % 24) + seq![
        ' ',
        '*',
        ' ',
        '*',
        ' ',
        '*',
        ' ',
        '*',
    ]
}

/// The digit `d` as a one-character string slice.
fn digit_str(d: u64) -> (s: &'static str)
    requires
        d < 10,
    ensures
        s@ == seq![spec_digit_char(d as int)],
{
    proof {
        reveal_strlit("0");
        reveal_strlit("1");
        reveal_strlit("2");
        reveal_strlit("3");
        reveal_strlit("4");
        reveal_strlit("5");
        reveal_strlit("6");
        reveal_strlit("7");
        reveal_strlit("8");
        reveal_strlit("9");
    }
    if d == 0 {
        "0"
    } else if d == 1 {
        "1"
    } else if d == 2 {
        "2"
    } else if d == 3 {
        "3"
    } else if d == 4 {
        "4"
    } else if d == 5 {
        "5"
    } else if d == 6 {
        "6"
    } else if d == 7 {
        "7"
    } else if d == 8 {
        "8"
    } else {
        "9"
    }
}

/// Appends `n` in decimal, unpadded, for `n < 100`.
fn append_decimal(s: &mut String, n: u64)
    requires
        n < 100,
    ensures
        final(s)@ == old(s)@ + spec_decimal(n as int),
{
    if n >= 10 {
        s.append(digit_str(n / 10));
        s.append(digit_str(n % 10));
        assert(final(s)@ =~= old(s)@ + spec_decimal(n as int));
    } else {
        s.append(digit_str(n));
        assert(final(s)@ =~= old(s)@ + spec_decimal(n as int));
    }
}

/// The cron line that fires `offset` seconds past the end of the epoch
/// `curr_ts` falls in, and at that same time every following day. One
/// epoch is one day, so the line fires once per epoch, shortly after its
/// boundary.
pub fn create_end_epoch_cron(curr_ts: i64, offset: u64) -> (cron: String)
    requires
        0 <= curr_ts,
        spec_epoch_start(spec_current_epoch(curr_ts as int) + 1) + offset <= i64::MAX,
    ensures
        cron@ == spec_daily_cron_at(
            spec_epoch_start(spec_current_epoch(curr_ts as int) + 1) + offset,
        ),
{
    let next_epoch: u64 = next_epoch_ts(curr_ts) + offset;
    let minute: u64 = next_epoch / 60 % 60;
    let hour: u64 = next_epoch / 3600 % 24;
    let mut cron: String = "0 ".to_owned();
    proof {
        reveal_strlit("0 ");
        reveal_strlit(" ");
        reveal_strlit(" * * * *");
    }
    append_decimal(&mut cron, minute);
    cron.append(" ");
    append_decimal(&mut cron, hour);
    cron.append(" * * * *");
    proof {
        let t = spec_epoch_start(spec_current_epoch(curr_ts as int) + 1) + offset;
        assert(cron@ =~= spec_daily_cron_at(t));
    }
    cron
}

} // verus!
