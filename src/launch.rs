use vstd::prelude::*;
use vstd::string::*;

verus! {

/// The file name of the debugger command script in its temporary directory.
pub const SCRIPT_FILE: &'static str = "lldb-script";

/// The file name of the helper module beside the command script.
pub const HELPERS_FILE: &'static str = "helpers.py";

/// The decimal digit for `d`.
pub open spec fn digit(d: nat) -> char {
    seq!['0', '1', '2', '3', '4', '5', '6', '7', '8', '9'][d as int]
}

/// The decimal notation of `n`, without leading zeros.
pub open spec fn decimal(n: nat) -> Seq<char>
    decreases n,
{
    if n < 10 {
        seq![digit(n)]
    } else {
        decimal(n / 10) + seq![digit(n % 10)]
    }
}

fn digit_text(d: u16) -> (s: &'static str)
    requires
        d < 10,
    ensures
        s@ == seq![digit(d as nat)],
{
    let digits = "0123456789";
    proof {
        reveal_strlit("0123456789");
    }
    let s = digits.substring_char(d as usize, d as usize + 1);
    assert(s@ =~= seq![digit(d as nat)]);
    s
}

/// Appends the decimal notation of `n` to `out`.
pub fn push_decimal(out: &mut String, n: u16)
    ensures
        final(out)@ == old(out)@ + decimal(n as nat),
    decreases n,
{
    if n >= 10 {
        push_decimal(out, n / 10);
        out.append(digit_text(n % 10));
        assert(decimal(n as nat) == decimal((n / 10) as nat) + seq![digit((n % 10) as nat)]);
        assert(final(out)@ =~= old(out)@ + decimal(n as nat));
    } else {
        out.append(digit_text(n));
    }
}

/// The address of the local debug proxy: `localhost:<port>`.
pub open spec fn endpoint_text(port: u16) -> Seq<char> {
    "localhost:"@ + decimal(port as nat)
}

/// The address a debugger connects to for a proxy listening on `port`.
pub fn proxy_endpoint(port: u16) -> (s: String)
    ensures
        s@ == endpoint_text(port),
{
    let mut s = String::from_str("localhost:");
    push_decimal(&mut s, port);
    s
}

/// The debugger command script: select the remote platform with the support
/// directory as sysroot, create the target from the local binary, import the
/// helper module and register its three commands, connect to the proxy, set
/// the remote path, run with the arguments, and quit.
pub open spec fn script_text(
    sysroot: Seq<char>,
    local: Seq<char>,
    helpers: Seq<char>,
    proxy: Seq<char>,
    remote: Seq<char>,
    args: Seq<char>,
) -> Seq<char> {
    "platform select remote-ios --sysroot '"@ + sysroot + "'\n"@
    + "target create "@ + local + "\n"@
    + "script pass\n"@
    + "command script import \""@ + helpers + "\"\n"@
    + "command script add -f helpers.set_remote_path set_remote_path\n"@
    + "command script add -f helpers.connect_command connect\n"@
    + "command script add -s synchronous -f helpers.run_command run\n"@
    + "connect connect://"@ + proxy + "\n"@
    + "set_remote_path "@ + remote + "\n"@
    + "run "@ + args + "\n"@
    + "quit\n"@
}

/// Writes the debugger command script for the given sysroot, local binary,
/// helper module path, proxy address, remote executable path and arguments.
pub fn lldb_script(
    sysroot: &str,
    local: &str,
    helpers: &str,
    proxy: &str,
    remote: &str,
    args: &str,
) -> (s: String)
    ensures
        s@ == script_text(sysroot@, local@, helpers@, proxy@, remote@, args@),
{
    let mut s = String::from_str("platform select remote-ios --sysroot '");
    s.append(sysroot);
    s.append("'\n");
    s.append("target create ");
    s.append(local);
    s.append("\n");
    s.append("script pass\n");
    s.append("command script import \"");
    s.append(helpers);
    s.append("\"\n");
    s.append("command script add -f helpers.set_remote_path set_remote_path\n");
    s.append("command script add -f helpers.connect_command connect\n");
    s.append("command script add -s synchronous -f helpers.run_command run\n");
    s.append("connect connect://");
    s.append(proxy);
    s.append("\n");
    s.append("set_remote_path ");
    s.append(remote);
    s.append("\n");
    s.append("run ");
    s.append(args);
    s.append("\n");
    s.append("quit\n");
    s
}

} // verus!
