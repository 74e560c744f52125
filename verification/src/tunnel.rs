//! SSH tunnels: the arguments of the `ssh -L` process, the local port it
//! listens on, and the failure it reports.

use vstd::prelude::*;

use crate::text::{decimal, push_decimal, push_signed, push_str, signed_decimal, str_eq};
use crate::registry::KeyedTable;
use crate::types::SshConfig;

verus! {

broadcast use vstd::string::group_string_axioms;

/// The lowest local port a tunnel listens on.
pub const PORT_LOW: u16 = 49152;

/// The highest local port a tunnel listens on.
pub const PORT_HIGH: u16 = 65534;

/// A uniformly drawn port in `PORT_LOW..=PORT_HIGH` (`rand::random_range`).
/// The contract states only the range; the draw is random.
#[verifier::external_body]
fn draw_port(low: u16, high: u16) -> (r: u16)
    requires
        low <= high,
    ensures
        low <= r <= high,
{
    rand::random_range(low..=high)
}

/// A random local port for a tunnel, in the ephemeral range; it is not
/// checked for being free.
pub fn random_port() -> (r: u16)
    ensures
        PORT_LOW <= r <= PORT_HIGH,
{
    draw_port(PORT_LOW, PORT_HIGH)
}

/// The arguments of `ssh` forwarding `local` to `host:port` through the SSH
/// server: `-N -L local:host:port -p <ssh port> -o StrictHostKeyChecking=no
/// -o ExitOnForwardFailure=yes`, then `-i <key>` for key authentication
/// with a non-empty key path, then `user@server`.
pub open spec fn ssh_args_of(ssh: SshConfig, host: Seq<char>, port: u16, local: u16) -> Seq<
    Seq<char>,
> {
    let base = seq![
        "-N"@,
        "-L"@,
        decimal(local as nat) + seq![':'] + host + seq![':'] + decimal(port as nat),
        "-p"@,
        decimal(ssh.port as nat),
        "-o"@,
        "StrictHostKeyChecking=no"@,
        "-o"@,
        "ExitOnForwardFailure=yes"@,
    ];
    let with_key = if ssh.auth_method@ == "key"@ {
        match ssh.key_path {
            Some(k) => if k@.len() > 0 {
                base + seq!["-i"@, k@]
            } else {
                base
            },
            None => base,
        }
    } else {
        base
    };
    with_key.push(ssh.username@ + seq!['@'] + ssh.host@)
}

/// The arguments of the tunnel's `ssh` process. Password authentication is
/// not passed on: it works only when an agent or default key satisfies it.
pub fn ssh_args(ssh: &SshConfig, remote_host: &str, remote_port: u16, local_port: u16) -> (r: Vec<
    String,
>)
    ensures
        r@.map_values(|s: String| s@) == ssh_args_of(*ssh, remote_host@, remote_port, local_port),
{
    proof {
        reveal_strlit(":");
        reveal_strlit("@");
    }
    let mut args: Vec<String> = Vec::new();
    args.push(String::from_str("-N"));
    args.push(String::from_str("-L"));
    let mut fwd = String::new();
    push_decimal(&mut fwd, local_port as u64);
    push_str(&mut fwd, ":");
    push_str(&mut fwd, remote_host);
    push_str(&mut fwd, ":");
    push_decimal(&mut fwd, remote_port as u64);
    assert(fwd@ =~= decimal(local_port as nat) + seq![':'] + remote_host@ + seq![':'] + decimal(
        remote_port as nat,
    ));
    args.push(fwd);
    args.push(String::from_str("-p"));
    let mut p = String::new();
    push_decimal(&mut p, ssh.port as u64);
    args.push(p);
    args.push(String::from_str("-o"));
    args.push(String::from_str("StrictHostKeyChecking=no"));
    args.push(String::from_str("-o"));
    args.push(String::from_str("ExitOnForwardFailure=yes"));
    let ghost base = seq![
        "-N"@,
        "-L"@,
        decimal(local_port as nat) + seq![':'] + remote_host@ + seq![':'] + decimal(
            remote_port as nat,
        ),
        "-p"@,
        decimal(ssh.port as nat),
        "-o"@,
        "StrictHostKeyChecking=no"@,
        "-o"@,
        "ExitOnForwardFailure=yes"@,
    ];
    assert(args@.map_values(|s: String| s@) =~= base);
    let ghost with_key = if ssh.auth_method@ == "key"@ {
        match &ssh.key_path {
            Some(k) => if k@.len() > 0 {
                base + seq!["-i"@, k@]
            } else {
                base
            },
            None => base,
        }
    } else {
        base
    };
    if str_eq(ssh.auth_method.as_str(), "key") {
        match &ssh.key_path {
            Some(k) => {
                if !k.as_str().is_empty() {
                    args.push(String::from_str("-i"));
                    args.push(k.clone());
                    assert(args@.map_values(|s: String| s@) =~= base + seq!["-i"@, k@]);
                }
            },
            None => {},
        }
    }
    assert(args@.map_values(|s: String| s@) =~= with_key);
    let mut target = ssh.username.clone();
    push_str(&mut target, "@");
    push_str(&mut target, ssh.host.as_str());
    assert(target@ =~= ssh.username@ + seq!['@'] + ssh.host@);
    let ghost before = args@;
    args.push(target);
    assert(args@.map_values(|s: String| s@) =~= with_key.push(ssh.username@ + seq!['@'] + ssh.host@));
    assert(args@.map_values(|s: String| s@) =~= ssh_args_of(
        *ssh,
        remote_host@,
        remote_port,
        local_port,
    ));
    args
}

/// The running tunnel processes, one per connection id.
pub struct Tunnels<C> {
    children: KeyedTable<C>,
}

impl<C> Tunnels<C> {
    /// The processes by connection id.
    pub closed spec fn view(&self) -> Map<Seq<char>, C> {
        self.children.view()
    }

    /// No tunnels.
    pub fn new() -> (r: Tunnels<C>)
        ensures
            r.view() == Map::<Seq<char>, C>::empty(),
    {
        Tunnels { children: KeyedTable::new() }
    }

    /// Takes the process of `id`'s tunnel out so that it can be stopped;
    /// without a tunnel nothing changes.
    pub fn close(&mut self, id: &str) -> (r: Option<C>)
        ensures
            final(self).view() == old(self).view().remove(id@),
            match r {
                Some(c) => old(self).view().contains_key(id@) && old(self).view()[id@] == c,
                None => !old(self).view().contains_key(id@),
            },
    {
        self.children.remove(id)
    }

    /// Keeps the process of a tunnel that came up for `id`.
    pub fn opened(&mut self, id: String, child: C)
        ensures
            final(self).view() == old(self).view().insert(id@, child),
    {
        self.children.insert(id, child);
    }
}

/// `SSH tunnel exited with code <code>`.
pub open spec fn exit_message(code: i32) -> Seq<char> {
    "SSH tunnel exited with code "@ + signed_decimal(code as int)
}

/// The failure of a tunnel process that ended within the start-up wait:
/// only a non-zero exit code counts; no code, or zero, is no failure.
pub fn tunnel_exit_error(code: Option<i32>) -> (r: Option<String>)
    ensures
        match r {
            Some(s) => code matches Some(c) && c != 0 && s@ == exit_message(c),
            None => code matches None || code == Some(0i32),
        },
{
    match code {
        Some(c) => {
            if c != 0 {
                let mut out = String::from_str("SSH tunnel exited with code ");
                push_signed(&mut out, c as i64);
                Some(out)
            } else {
                None
            }
        },
        None => None,
    }
}

} // verus!
