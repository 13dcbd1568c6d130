//! Small conveniences: service names of the form `svc_<n>`, and configuring
//! the rate limiter in one call.
use crate::env::Env;
use crate::escrow::Escrow;
use crate::events::{ConfigName, ConfigValue, Event};
use crate::model::EscrowView;
use crate::types::is_valid_symbol;
use vstd::prelude::*;

verus! {

/// The character of a decimal digit.
pub open spec fn digit_char(d: nat) -> char {
    if d == 0 {
        '0'
    } else if d == 1 {
        '1'
    } else if d == 2 {
        '2'
    } else if d == 3 {
        '3'
    } else if d == 4 {
        '4'
    } else if d == 5 {
        '5'
    } else if d == 6 {
        '6'
    } else if d == 7 {
        '7'
    } else if d == 8 {
        '8'
    } else {
        '9'
    }
}

/// The decimal digits of `n`, most significant first, with no leading zero
/// (`0` is the single digit `0`).
pub open spec fn decimal(n: nat) -> Seq<char>
    decreases n,
{
    if n < 10 {
        seq![digit_char(n)]
    } else {
        decimal(n / 10).push(digit_char(n % 10))
    }
}

/// The name `svc_<n>`, where `<n>` is the decimal number `i`.
pub open spec fn svc_name_spec(i: u32) -> Seq<char> {
    seq!['s', 'v', 'c', '_'] + decimal(i as nat)
}

/// `10` to the power `k`.
pub open spec fn pow10(k: nat) -> nat
    decreases k,
{
    if k == 0 {
        1
    } else {
        10 * pow10((k - 1) as nat)
    }
}

/// A number below `10^k` has at most `k` digits, and every digit is one of
/// `0` to `9`.
proof fn lemma_decimal_shape(n: nat, k: nat)
    requires
        k >= 1,
        n < pow10(k),
    ensures
        decimal(n).len() <= k,
        forall|j: int| 0 <= j < decimal(n).len() ==> '0' <= #[trigger] decimal(n)[j] <= '9',
    decreases k,
{
    if n >= 10 {
        assert(k >= 2) by {
            if k == 1 {
                assert(pow10(1) == 10 * pow10(0));
            }
        }
        assert(pow10(k) == 10 * pow10((k - 1) as nat));
        lemma_decimal_shape(n / 10, (k - 1) as nat);
        let d = decimal(n / 10);
        assert forall|j: int| 0 <= j < decimal(n).len() implies '0' <= #[trigger] decimal(n)[j]
            <= '9' by {
            if j < d.len() {
                assert(decimal(n)[j] == d[j]);
            }
        }
    }
}

fn digit_str(d: u32) -> (s: &'static str)
    requires
        d < 10,
    ensures
        s@ == seq![digit_char(d as nat)],
{
    proof {
        reveal_strlit("0");
        reveal_strlit("1");
        reveal_strlit("2");
        reveal_strlit("3");
        reveal_strlit("4");
        reveal_strlit("5");
        reveal_strlit("6");
        reveal_strlit("7");
        reveal_strlit("8");
        reveal_strlit("9");
    }
    if d == 0 {
        "0"
    } else if d == 1 {
        "1"
    } else if d == 2 {
        "2"
    } else if d == 3 {
        "3"
    } else if d == 4 {
        "4"
    } else if d == 5 {
        "5"
    } else if d == 6 {
        "6"
    } else if d == 7 {
        "7"
    } else if d == 8 {
        "8"
    } else {
        "9"
    }
}

/// Appends the decimal digits of `n` to `name`.
fn append_decimal(name: &mut String, n: u32)
    ensures
        final(name)@ == old(name)@ + decimal(n as nat),
    decreases n,
{
    if n >= 10 {
        append_decimal(name, n / 10);
    }
    name.append(digit_str(n % 10));
    proof {
        if n >= 10 {
            assert(decimal(n as nat) == decimal((n / 10) as nat).push(digit_char((n % 10) as nat)));
        }
        assert(final(name)@ =~= old(name)@ + decimal(n as nat)) by {
            if n < 10 {
                assert(decimal(n as nat) == seq![digit_char(n as nat)]);
            }
        }
    }
}

/// Builds the service name `svc_<n>` from `i`, with every decimal digit of
/// `i`; the name is always a valid symbol.
pub fn svc_name(i: u32) -> (name: String)
    ensures
        name@ == svc_name_spec(i),
        is_valid_symbol(name@),
{
    proof {
        reveal_strlit("svc_");
    }
    let mut name = String::from_str("svc_");
    append_decimal(&mut name, i);
    proof {
        assert(pow10(10) == 10_000_000_000) by {
            reveal_with_fuel(pow10, 11);
        }
        lemma_decimal_shape(i as nat, 10);
        assert(name@ =~= svc_name_spec(i));
        assert forall|k: int| 0 <= k < name@.len() implies crate::types::is_symbol_char(
            #[trigger] name@[k],
        ) by {
            if k >= 4 {
                assert(name@[k] == decimal(i as nat)[k - 4]);
            }
        }
    }
    name
}

/// Configures the fixed-window rate limiter: the cap, then the window length.
/// A zero for either leaves the limiter off. The caller must be able to make
/// both admin calls.
pub fn configure_rate_limit(
    escrow: &mut Escrow,
    env: &mut Env,
    max_requests: u32,
    window_seconds: u64,
)
    requires
        old(escrow).wf(),
        old(escrow)@.paused_admin_gate(*old(env)) is None,
    ensures
        final(escrow).wf(),
        final(escrow)@ == (EscrowView {
            max_per_window: max_requests,
            window_seconds,
            ..old(escrow)@
        }),
        final(env).publishes(
            *old(env),
            seq![
                Event::ConfigSet {
                    name: ConfigName::MaxWin,
                    value: ConfigValue::U32(max_requests),
                },
                Event::ConfigSet {
                    name: ConfigName::WinSec,
                    value: ConfigValue::U64(window_seconds),
                },
            ],
        ),
{
    let ghost env0 = *env;
    let _ = escrow.set_max_requests_per_window(env, max_requests);
    let ghost env1 = *env;
    proof {
        let set_max = Event::ConfigSet { name: ConfigName::MaxWin, value: ConfigValue::U32(max_requests) };
        env.lemma_publishes_keeps_host(env0, seq![set_max]);
    }
    let _ = escrow.set_rate_window_seconds(env, window_seconds);
    proof {
        Env::lemma_publishes_trans(
            env0,
            env1,
            *env,
            seq![Event::ConfigSet { name: ConfigName::MaxWin, value: ConfigValue::U32(max_requests) }],
            seq![Event::ConfigSet { name: ConfigName::WinSec, value: ConfigValue::U64(window_seconds) }],
        );
        assert(seq![Event::ConfigSet { name: ConfigName::MaxWin, value: ConfigValue::U32(max_requests) }]
            + seq![Event::ConfigSet { name: ConfigName::WinSec, value: ConfigValue::U64(window_seconds) }]
            =~= seq![
                Event::ConfigSet { name: ConfigName::MaxWin, value: ConfigValue::U32(max_requests) },
                Event::ConfigSet { name: ConfigName::WinSec, value: ConfigValue::U64(window_seconds) },
            ]);
    }
}

} // verus!
