//! Plain text rendering: decimal numbers and the indented error-chain
//! report used when a failure and its causes are logged.

use vstd::prelude::*;
use vstd::string::StringExecFns;

verus! {

/// The digit character for one decimal digit.
pub open spec fn digit_char(d: nat) -> char {
    if d == 0 {
        '0'
    } else if d == 1 {
        '1'
    } else if d == 2 {
        '2'
    } else if d == 3 {
        '3'
    } else if d == 4 {
        '4'
    } else if d == 5 {
        '5'
    } else if d == 6 {
        '6'
    } else if d == 7 {
        '7'
    } else if d == 8 {
        '8'
    } else {
        '9'
    }
}

/// The decimal rendering of `n`, most significant digit first.
pub open spec fn dec_digits(n: nat) -> Seq<char>
    decreases n,
{
    if n < 10 {
        seq![digit_char(n)]
    } else {
        dec_digits(n / 10) + seq![digit_char(n % 10)]
    }
}

/// One digit as a string.
fn digit_string(d: u64) -> (r: String)
    requires
        d < 10,
    ensures
        r@ =~= seq![digit_char(d as nat)],
{
    let s: &str = match d {
        0 => "0",
        1 => "1",
        2 => "2",
        3 => "3",
        4 => "4",
        5 => "5",
        6 => "6",
        7 => "7",
        8 => "8",
        _ => "9",
    };
    proof {
        reveal_strlit("0");
        reveal_strlit("1");
        reveal_strlit("2");
        reveal_strlit("3");
        reveal_strlit("4");
        reveal_strlit("5");
        reveal_strlit("6");
        reveal_strlit("7");
        reveal_strlit("8");
        reveal_strlit("9");
    }
    s.to_owned()
}

/// Renders `n` in decimal.
pub fn u64_to_decimal(n: u64) -> (r: String)
    ensures
        r@ == dec_digits(n as nat),
    decreases n,
{
    if n < 10 {
        digit_string(n)
    } else {
        let mut prefix = u64_to_decimal(n / 10);
        let digit = digit_string(n % 10);
        prefix.append(digit.as_str());
        proof {
            assert(prefix@ =~= dec_digits(n as nat));
        }
        prefix
    }
}

/// The report for one failure and the chain of causes under it: the failure
/// on a `[_]` line, then each cause on its own numbered `Caused by` line.
pub open spec fn error_chain_view(error: Seq<char>, sources: Seq<Seq<char>>) -> Seq<char>
    decreases sources.len(),
{
    "[_] "@ + error + "\n\n"@ + error_causes_view(sources, 0)
}

/// The numbered `Caused by` lines from `index` on.
pub open spec fn error_causes_view(sources: Seq<Seq<char>>, index: nat) -> Seq<char>
    decreases sources.len(),
{
    if sources.len() == 0 {
        Seq::empty()
    } else {
        "["@ + dec_digits(index) + "] Caused by:\n\t"@ + sources[0] + "\n"@ + error_causes_view(
            sources.skip(1),
            index + 1,
        )
    }
}

/// Renders a failure and its chain of causes, the way failures are logged:
/// the failure itself, then each cause indented under a `Caused by` header
/// carrying its depth.
pub fn error_chain_fmt(error: &String, sources: &Vec<String>) -> (r: String)
    ensures
        r@ == error_chain_view(error@, sources.deep_view()),
{
    let ghost all = sources.deep_view();
    let mut out = String::new();
    out.append("[_] ");
    out.append(error.as_str());
    out.append("\n\n");
    proof {
        assert(all.skip(0) =~= all);
        assert(out@ + error_causes_view(all, 0) =~= error_chain_view(error@, all));
    }
    let mut i: usize = 0;
    #[verifier::loop_isolation(false)]
    while i < sources.len()
        invariant
            i <= sources.len(),
            out@ + error_causes_view(all.skip(i as int), i as nat) == error_chain_view(
                error@,
                all,
            ),
        decreases sources.len() - i,
    {
        proof {
            assert(all.skip(i as int)[0] == all[i as int]);
            assert(all.skip(i as int).skip(1) =~= all.skip(i + 1));
        }
        let ghost before = out@;
        let index = u64_to_decimal(i as u64);
        out.append("[");
        out.append(index.as_str());
        out.append("] Caused by:\n\t");
        out.append(sources[i].as_str());
        out.append("\n");
        proof {
            let chunk = "["@ + dec_digits(i as nat) + "] Caused by:\n\t"@ + all[i as int]
                + "\n"@;
            assert(out@ =~= before + chunk);
            assert(error_causes_view(all.skip(i as int), i as nat) == chunk + error_causes_view(
                all.skip(i + 1),
                (i + 1) as nat,
            ));
            assert(before + (chunk + error_causes_view(all.skip(i + 1), (i + 1) as nat)) =~= (
            before + chunk) + error_causes_view(all.skip(i + 1), (i + 1) as nat));
        }
        i = i + 1;
    }
    proof {
        assert(error_causes_view(all.skip(i as int), i as nat) =~= Seq::<char>::empty());
        assert(out@ + Seq::<char>::empty() =~= out@);
    }
    out
}

} // verus!
