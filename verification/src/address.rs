use vstd::prelude::*;

verus! {

/// The socket a module talks to the bus through.
pub enum ConnectionTarget {
    /// A TCP socket at `address`, written as `host:port`.
    Inet { address: String },
    /// A Unix domain socket at the file `path`.
    Unix { path: String },
}

/// The character of the decimal digit `d`.
pub open spec fn digit_char(d: nat) -> char {
    (48 + d) as char
}

/// The decimal digits of `n`, most significant first, without leading zeros.
pub open spec fn decimal(n: nat) -> Seq<char>
    decreases n,
{
    if n < 10 {
        seq![digit_char(n)]
    } else {
        decimal(n / 10).push(digit_char(n % 10))
    }
}

/// The number that a string of decimal digits stands for.
pub open spec fn decimal_value(s: Seq<char>) -> nat
    decreases s.len(),
{
    if s.len() == 0 {
        0
    } else {
        decimal_value(s.drop_last()) * 10 + ((s.last() as nat) - 48) as nat
    }
}

/// `host:port`, the address of a TCP socket.
pub open spec fn spec_inet_socket_address(host: Seq<char>, port: u16) -> Seq<char> {
    host + seq![':'] + decimal(port as nat)
}

/// Appends `c` to `s` (`String::push`).
#[verifier::external_body]
fn push_char(s: &mut String, c: char)
    ensures
        final(s)@ == old(s)@.push(c),
{
    s.push(c);
}

fn push_decimal(s: &mut String, n: u16)
    ensures
        final(s)@ == old(s)@ + decimal(n as nat),
    decreases n,
{
    if n >= 10 {
        push_decimal(s, n / 10);
    }
    let d: u8 = (n % 10) as u8;
    let c: char = (d + 48) as char;
    push_char(s, c);
    proof {
        assert(c == digit_char((n % 10) as nat));
        if n >= 10 {
            assert(decimal(n as nat) == decimal((n / 10) as nat).push(digit_char((n % 10) as nat)));
        }
        assert(final(s)@ =~= old(s)@ + decimal(n as nat));
    }
}

/// The address `host:port` of a TCP socket.
pub fn inet_socket_address(host: &str, port: u16) -> (address: String)
    ensures
        address@ == spec_inet_socket_address(host@, port),
{
    let mut address = host.to_owned();
    push_char(&mut address, ':');
    push_decimal(&mut address, port);
    assert(address@ =~= spec_inet_socket_address(host@, port));
    address
}

/// The socket named by a connection path: when the path reads as a socket
/// address, `parsed_address` holds its host and port, and the module talks
/// TCP to `host:port`; otherwise the path names a Unix domain socket.
pub fn connection_target(connection_path: &str, parsed_address: Option<(String, u16)>) -> (target: ConnectionTarget)
    ensures
        match parsed_address {
            Some((host, port)) => target matches ConnectionTarget::Inet { address }
                && address@ == spec_inet_socket_address(host@, port),
            None => target matches ConnectionTarget::Unix { path } && path@ == connection_path@,
        },
{
    match parsed_address {
        Some((host, port)) => ConnectionTarget::Inet { address: inet_socket_address(host.as_str(), port) },
        None => ConnectionTarget::Unix { path: connection_path.to_owned() },
    }
}

/// Every character of a written number is a decimal digit.
pub proof fn law_decimal_digits(n: nat)
    ensures
        forall|i: int| 0 <= i < decimal(n).len() ==> '0' <= #[trigger] decimal(n)[i] <= '9',
    decreases n,
{
    lemma_digit_char((n % 10) as nat);
    if n >= 10 {
        law_decimal_digits(n / 10);
        let s = decimal(n);
        assert forall|i: int| 0 <= i < s.len() implies '0' <= #[trigger] s[i] <= '9' by {
            if i < s.len() - 1 {
                assert(s[i] == decimal(n / 10)[i]);
            }
        }
    } else {
        assert(decimal(n)[0] == digit_char(n));
    }
}

proof fn lemma_digit_char(d: nat)
    requires
        d < 10,
    ensures
        digit_char(d) as nat == 48 + d,
        '0' <= digit_char(d) <= '9',
{
}

/// A port written out in decimal reads back as the same port.
pub proof fn law_decimal_round_trip(n: nat)
    ensures
        decimal_value(decimal(n)) == n,
    decreases n,
{
    lemma_digit_char((n % 10) as nat);
    let s = decimal(n);
    if n >= 10 {
        law_decimal_round_trip(n / 10);
        assert(s.drop_last() =~= decimal(n / 10));
        assert(s.last() == digit_char((n % 10) as nat));
        assert(n == (n / 10) * 10 + n % 10);
        assert(s.len() > 0);
        assert(decimal_value(s) == decimal_value(s.drop_last()) * 10 + ((s.last() as nat) - 48) as nat);
    } else {
        assert(s.drop_last() =~= Seq::<char>::empty());
        assert(s.last() == digit_char(n));
        assert(decimal_value(s) == decimal_value(s.drop_last()) * 10 + ((s.last() as nat) - 48) as nat);
        assert(decimal_value(s.drop_last()) == 0);
    }
}

} // verus!
