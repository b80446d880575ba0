use vstd::prelude::*;

verus! {

// The connection endpoints.  An address is four plain octets; what only the
// operating system can resolve (the machine's own address, the sockets) is
// handed in by the caller as plain values.

/// An IPv4 address as its four octets.
#[derive(Clone, Copy, Debug, PartialEq, Eq, Structural)]
pub struct Ipv4 {
    pub o0: u8,
    pub o1: u8,
    pub o2: u8,
    pub o3: u8,
}

/// The decimal digit character of a value below ten.
pub open spec fn digit_char(d: int) -> char
    recommends
        0 <= d < 10,
{
    ((48 + d) as u8) as char
}

/// The decimal representation of an octet, without leading zeros.
pub open spec fn dec_chars(n: u8) -> Seq<char> {
    if n < 10 {
        seq![digit_char(n as int)]
    } else if n < 100 {
        seq![digit_char(n as int / 10), digit_char(n as int % 10)]
    } else {
        seq![
            digit_char(n as int / 100),
            digit_char((n as int / 10) % 10),
            digit_char(n as int % 10),
        ]
    }
}

/// The dotted-decimal text of an address.
pub open spec fn ipv4_chars(a: Ipv4) -> Seq<char> {
    dec_chars(a.o0) + seq!['.'] + dec_chars(a.o1) + seq!['.'] + dec_chars(a.o2) + seq!['.']
        + dec_chars(a.o3)
}

/// The `address:port` text of an endpoint.
pub open spec fn full_address_chars(a: Ipv4, port: Seq<char>) -> Seq<char> {
    ipv4_chars(a) + seq![':'] + port
}

/// The one-character text of a decimal digit.
fn digit_str(d: u8) -> (r: &'static str)
    requires
        d < 10,
    ensures
        r@ == seq![digit_char(d as int)],
{
    proof {
        reveal_strlit("0");
        reveal_strlit("1");
        reveal_strlit("2");
        reveal_strlit("3");
        reveal_strlit("4");
        reveal_strlit("5");
        reveal_strlit("6");
        reveal_strlit("7");
        reveal_strlit("8");
        reveal_strlit("9");
    }
    let r = match d {
        0 => "0",
        1 => "1",
        2 => "2",
        3 => "3",
        4 => "4",
        5 => "5",
        6 => "6",
        7 => "7",
        8 => "8",
        _ => "9",
    };
    proof {
        assert(r@ =~= seq![digit_char(d as int)]);
    }
    r
}

/// The decimal text of an octet.
pub fn octet_string(n: u8) -> (r: String)
    ensures
        r@ == dec_chars(n),
{
    let mut s = String::new();
    if n >= 100 {
        s.append(digit_str(n / 100));
    }
    if n >= 10 {
        s.append(digit_str((n / 10) % 10));
    }
    s.append(digit_str(n % 10));
    proof {
        assert(s@ =~= dec_chars(n));
    }
    s
}

/// An endpoint: address and port, immutable once constructed.
#[derive(Debug)]
pub struct Network {
    pub address: Ipv4,
    pub port: String,
}

impl Network {
    pub fn new(address: Ipv4, port: &str) -> (r: Network)
        ensures
            r.address == address,
            r.port@ == port@,
    {
        Network { address, port: port.to_owned() }
    }

    /// The `address:port` text that the socket layer binds or connects to.
    pub fn get_fulladdress(&self) -> (r: String)
        ensures
            r@ == full_address_chars(self.address, self.port@),
    {
        proof {
            reveal_strlit(".");
            reveal_strlit(":");
        }
        let mut s = octet_string(self.address.o0);
        s.append(".");
        s.append(octet_string(self.address.o1).as_str());
        s.append(".");
        s.append(octet_string(self.address.o2).as_str());
        s.append(".");
        s.append(octet_string(self.address.o3).as_str());
        s.append(":");
        s.append(self.port.as_str());
        proof {
            assert(s@ =~= full_address_chars(self.address, self.port@));
        }
        s
    }
}

/// A server's endpoint could not be chosen: the machine is not on a network.
#[derive(Clone, Copy, Debug, PartialEq, Eq, Structural)]
pub enum NetworkError {
    AddrNotAvailable,
}

/// The loopback address used when the server binds to localhost only.
pub open spec fn localhost_ipv4() -> Ipv4 {
    Ipv4 { o0: 127, o1: 0, o2: 0, o3: 1 }
}

/// Chooses the address a server listens on: loopback when localhost-only was
/// asked for, else the machine's resolved local address, and an error when
/// none could be resolved.
pub fn choose_server_address(localhost: bool, local: Option<Ipv4>) -> (r: Result<
    Ipv4,
    NetworkError,
>)
    ensures
        localhost ==> r == Ok::<Ipv4, NetworkError>(localhost_ipv4()),
        !localhost ==> match local {
            Some(ip) => r == Ok::<Ipv4, NetworkError>(ip),
            None => r == Err::<Ipv4, NetworkError>(NetworkError::AddrNotAvailable),
        },
{
    if localhost {
        Ok(Ipv4 { o0: 127, o1: 0, o2: 0, o3: 1 })
    } else {
        match local {
            Some(ip) => Ok(ip),
            None => Err(NetworkError::AddrNotAvailable),
        }
    }
}

/// A listening side: its endpoint and which handshake it runs.
pub struct Server {
    pub network: Network,
    pub password_auth: bool,
}

impl Server {
    pub fn new(address: Ipv4, port: &str, password_auth: bool) -> (r: Server)
        ensures
            r.network.address == address,
            r.network.port@ == port@,
            r.password_auth == password_auth,
    {
        Server { network: Network::new(address, port), password_auth }
    }
}

/// A connecting side: the endpoint it dials and which handshake it runs.
pub struct Client {
    pub network: Network,
    pub password_auth: bool,
}

impl Client {
    pub fn new(address: Ipv4, port: &str, password_auth: bool) -> (r: Client)
        ensures
            r.network.address == address,
            r.network.port@ == port@,
            r.password_auth == password_auth,
    {
        Client { network: Network::new(address, port), password_auth }
    }
}

} // verus!
