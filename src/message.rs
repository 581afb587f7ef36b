use vstd::prelude::*;
use vstd::string::StringExecFns;
use crate::level::Level;

verus! {

/// The decimal digit for `d`, which is below ten.
pub open spec fn digit(d: nat) -> char {
    if d == 0 { '0' }
    else if d == 1 { '1' }
    else if d == 2 { '2' }
    else if d == 3 { '3' }
    else if d == 4 { '4' }
    else if d == 5 { '5' }
    else if d == 6 { '6' }
    else if d == 7 { '7' }
    else if d == 8 { '8' }
    else { '9' }
}

/// The decimal notation of `n`, without leading zeros.
pub open spec fn decimal(n: nat) -> Seq<char>
    decreases n,
{
    if n < 10 {
        seq![digit(n)]
    } else {
        decimal(n / 10).push(digit(n % 10))
    }
}

/// The message `[<module>::<line>] [<LEVEL>] <content>`.
pub open spec fn rendered(module: Seq<char>, line: nat, level: Level, content: Seq<char>) -> Seq<char> {
    "["@ + module + "::"@ + decimal(line) + "] ["@ + level.name() + "] "@ + content
}

fn digit_str(d: u32) -> (r: &'static str)
    requires
        d < 10,
    ensures
        r@ == seq![digit(d as nat)],
{
    if d == 0 { proof { reveal_strlit("0"); } "0" }
    else if d == 1 { proof { reveal_strlit("1"); } "1" }
    else if d == 2 { proof { reveal_strlit("2"); } "2" }
    else if d == 3 { proof { reveal_strlit("3"); } "3" }
    else if d == 4 { proof { reveal_strlit("4"); } "4" }
    else if d == 5 { proof { reveal_strlit("5"); } "5" }
    else if d == 6 { proof { reveal_strlit("6"); } "6" }
    else if d == 7 { proof { reveal_strlit("7"); } "7" }
    else if d == 8 { proof { reveal_strlit("8"); } "8" }
    else { proof { reveal_strlit("9"); } "9" }
}

/// Appends the decimal notation of `n` to `out`.
pub fn push_decimal(out: &mut String, n: u32)
    ensures
        final(out)@ == old(out)@ + decimal(n as nat),
    decreases n,
{
    if n >= 10 {
        push_decimal(out, n / 10);
    }
    out.append(digit_str(n % 10));
    if n >= 10 {
        assert(old(out)@ + decimal(n as nat) =~= old(out)@ + decimal((n / 10) as nat) + seq![
            digit((n % 10) as nat),
        ]);
    }
}

/// Renders a message as `[<module>::<line>] [<LEVEL>] <content>`, where
/// `module` and `line` name the call site.
pub fn render_message(module: &str, line: u32, level: Level, content: &str) -> (r: String)
    ensures
        r@ == rendered(module@, line as nat, level, content@),
{
    proof {
        reveal_strlit("[");
        reveal_strlit("::");
        reveal_strlit("] [");
        reveal_strlit("] ");
    }
    let mut out = String::from_str("[");
    out.append(module);
    out.append("::");
    push_decimal(&mut out, line);
    out.append("] [");
    out.append(level.as_str());
    out.append("] ");
    out.append(content);
    assert(out@ =~= rendered(module@, line as nat, level, content@));
    out
}

} // verus!
