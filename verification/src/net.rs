//! TCP, UDP and HTTP endpoints on the board's IP stack, and the choices
//! they make before handing work to the stack.

use vstd::prelude::*;
use vstd::string::StringSliceAdditionalSpecFns;

use embassy_net::tcp::{ConnectError, TcpSocket};

use crate::text::{
    all_digits, decimal, digits_value, field_views, is_ascii_digit, lemma_decimal_digits,
    lemma_split_append_plain, lemma_split_dot, parse_u32, split_at_dots, split_dots,
    unsigned_digits,
};
use embassy_net::Stack;

verus! {

/// `embassy_net::Stack`, the board's IP stack; carried, never inspected.
#[verifier::external_type_specification]
#[verifier::external_body]
pub struct ExStack<'d>(Stack<'d>);

/// `embassy_net::tcp::TcpSocket`; carried, never inspected.
#[verifier::external_type_specification]
#[verifier::external_body]
pub struct ExTcpSocket<'a>(TcpSocket<'a>);

/// `embassy_net::tcp::ConnectError`; carried, never inspected.
#[verifier::external_type_specification]
#[verifier::external_body]
pub struct ExConnectError(ConnectError);

/// `embassy_net::tcp::Error`; carried, never inspected.
#[verifier::external_type_specification]
#[verifier::external_body]
pub struct ExTcpIoError(embassy_net::tcp::Error);

/// One octet of a dotted-decimal IPv4 address: one to three digits, with
/// no leading zero unless the octet is `0` itself, denoting at most 255.
pub open spec fn octet_value(f: Seq<u8>) -> Option<u8> {
    if 1 <= f.len() <= 3 && all_digits(f) && (f.len() == 1 || f[0] != 48) && digits_value(f)
        <= 255 {
        Some(digits_value(f) as u8)
    } else {
        None
    }
}

/// The IPv4 address that a text in dotted-decimal notation denotes: four
/// octets separated by dots and nothing else.
pub open spec fn ipv4_octets(s: Seq<u8>) -> Option<(u8, u8, u8, u8)> {
    let f = split_dots(s);
    if f.len() == 4 && octet_value(f[0]) is Some && octet_value(f[1]) is Some && octet_value(
        f[2],
    ) is Some && octet_value(f[3]) is Some {
        Some(
            (
                octet_value(f[0])->0,
                octet_value(f[1])->0,
                octet_value(f[2])->0,
                octet_value(f[3])->0,
            ),
        )
    } else {
        None
    }
}

/// The shortest decimal text of a number up to 255 has at most three
/// digits, and no leading zero unless it is `0`.
proof fn lemma_short_decimal(n: nat)
    requires
        n <= 255,
    ensures
        decimal(n).len() <= 3,
        decimal(n).len() > 1 ==> decimal(n)[0] != 48,
{
    if n >= 10 {
        assert(decimal(n).drop_last() =~= decimal(n / 10));
        assert(decimal(n)[0] == decimal(n / 10)[0]);
        if n / 10 >= 10 {
            assert(decimal(n / 10).drop_last() =~= decimal(n / 100));
            assert(decimal(n / 10)[0] == decimal(n / 100)[0]);
            assert(n / 100 < 10);
        }
    }
}

/// Every octet from 0 to 255, written in its shortest decimal form, reads
/// back as itself.
pub proof fn lemma_octet_round_trip(n: u8)
    ensures
        octet_value(decimal(n as nat)) == Some(n),
{
    lemma_decimal_digits(n as nat);
    lemma_short_decimal(n as nat);
}

/// An octet is refused when it is empty, has a character other than a
/// digit, has a leading zero and more digits, or exceeds 255.
pub proof fn lemma_octet_refusals(f: Seq<u8>)
    ensures
        f.len() == 0 ==> octet_value(f) is None,
        (exists|i: int| 0 <= i < f.len() && !(48 <= #[trigger] f[i] <= 57)) ==> octet_value(f) is None,
        f.len() > 1 && f[0] == 48 ==> octet_value(f) is None,
        all_digits(f) && digits_value(f) > 255 ==> octet_value(f) is None,
{
}

/// An address `a.b.c.d`, each octet in its shortest decimal form, reads
/// back as the octets `a`, `b`, `c`, `d`.
pub proof fn lemma_address_round_trip(a: u8, b: u8, c: u8, d: u8)
    ensures
        ipv4_octets(
            decimal(a as nat) + seq![46u8] + decimal(b as nat) + seq![46u8] + decimal(c as nat)
                + seq![46u8] + decimal(d as nat),
        ) == Some((a, b, c, d)),
{
    let da = decimal(a as nat);
    let db = decimal(b as nat);
    let dc = decimal(c as nat);
    let dd = decimal(d as nat);
    lemma_decimal_digits(a as nat);
    lemma_decimal_digits(b as nat);
    lemma_decimal_digits(c as nat);
    lemma_decimal_digits(d as nat);
    lemma_octet_round_trip(a);
    lemma_octet_round_trip(b);
    lemma_octet_round_trip(c);
    lemma_octet_round_trip(d);
    assert forall|i: int| 0 <= i < da.len() implies #[trigger] da[i] != 46 by {
        assert(is_ascii_digit(da[i]));
    }
    assert forall|i: int| 0 <= i < db.len() implies #[trigger] db[i] != 46 by {
        assert(is_ascii_digit(db[i]));
    }
    assert forall|i: int| 0 <= i < dc.len() implies #[trigger] dc[i] != 46 by {
        assert(is_ascii_digit(dc[i]));
    }
    assert forall|i: int| 0 <= i < dd.len() implies #[trigger] dd[i] != 46 by {
        assert(is_ascii_digit(dd[i]));
    }
    let e = Seq::<u8>::empty();
    lemma_split_append_plain(e, da);
    assert(e + da =~= da);
    assert(split_dots(e) =~= seq![e]);
    assert(split_dots(da) =~= seq![da]);
    lemma_split_dot(da);
    let p1 = da + seq![46u8];
    lemma_split_append_plain(p1, db);
    let p2 = p1 + db;
    assert(split_dots(p2) =~= seq![da, db]);
    lemma_split_dot(p2);
    let p3 = p2 + seq![46u8];
    lemma_split_append_plain(p3, dc);
    let p4 = p3 + dc;
    assert(split_dots(p4) =~= seq![da, db, dc]);
    lemma_split_dot(p4);
    let p5 = p4 + seq![46u8];
    lemma_split_append_plain(p5, dd);
    let t = p5 + dd;
    assert(split_dots(t) =~= seq![da, db, dc, dd]);
}

/// Reads one octet of an address.
fn parse_octet(f: &[u8]) -> (r: Option<u8>)
    ensures
        r == octet_value(f@),
{
    if f.len() == 0 || f.len() > 3 || f[0] < 48 || f[0] > 57 || (f.len() > 1 && f[0] == 48) {
        assert(f@.len() > 0 && f@.len() <= 3 && !is_ascii_digit(f@[0]) ==> !all_digits(f@));
        return None;
    }
    assert(unsigned_digits(f@) == f@);
    match parse_u32(f) {
        Some(v) => {
            if v <= 255 {
                Some(v as u8)
            } else {
                None
            }
        },
        None => None,
    }
}

/// Reads a dotted-decimal IPv4 address.
fn parse_ipv4(text: &str) -> (r: Option<[u8; 4]>)
    ensures
        match r {
            Some(o) => ipv4_octets(text.spec_bytes()) == Some((o@[0], o@[1], o@[2], o@[3])),
            None => ipv4_octets(text.spec_bytes()) is None,
        },
{
    let fields = split_at_dots(text.as_bytes());
    if fields.len() != 4 {
        return None;
    }
    assert(field_views(fields@)[0] == fields@[0]@);
    assert(field_views(fields@)[1] == fields@[1]@);
    assert(field_views(fields@)[2] == fields@[2]@);
    assert(field_views(fields@)[3] == fields@[3]@);
    match (
        parse_octet(fields[0].as_slice()),
        parse_octet(fields[1].as_slice()),
        parse_octet(fields[2].as_slice()),
        parse_octet(fields[3].as_slice()),
    ) {
        (Some(a), Some(b), Some(c), Some(d)) => {
            let o: [u8; 4] = [a, b, c, d];
            Some(o)
        },
        _ => None,
    }
}

/// The errors of a TCP client on a plain socket.
pub enum TcpError {
    Connect(ConnectError),
    Io(embassy_net::tcp::Error),
}

/// A TCP client on one socket.
pub struct EmbassyTcp<'a> {
    socket: TcpSocket<'a>,
}

impl<'a> EmbassyTcp<'a> {
    pub closed spec fn tcp_socket(&self) -> TcpSocket<'a> {
        self.socket
    }

    pub fn new(socket: TcpSocket<'a>) -> (r: Self)
        ensures
            r.tcp_socket() == socket,
    {
        Self { socket }
    }

    /// The socket, for the exchanges themselves.
    pub fn socket(&mut self) -> (r: &mut TcpSocket<'a>)
        ensures
            *r == old(self).tcp_socket(),
            final(self).tcp_socket() == *final(r),
    {
        &mut self.socket
    }

    /// The endpoint that `connect` dials: the first four bytes of the
    /// address text taken as the octets, and the port.
    pub fn endpoint(address: &str, port: u16) -> (r: ([u8; 4], u16))
        requires
            address.spec_bytes().len() >= 4,
        ensures
            r.0@ == address.spec_bytes().take(4),
            r.1 == port,
    {
        let bytes = address.as_bytes();
        let octets: [u8; 4] = [bytes[0], bytes[1], bytes[2], bytes[3]];
        assert(octets@ =~= address.spec_bytes().take(4));
        (octets, port)
    }
}

/// The errors of `Rp235xTcp::connect` and of sending on its connection.
#[derive(Debug)]
pub enum Rp235xTcpError {
    InvalidAddress,
    Connect(ConnectError),
    Write,
}

/// Opens TCP connections on the board's IP stack.
pub struct Rp235xTcp {
    stack: Stack<'static>,
}

impl Rp235xTcp {
    pub closed spec fn ip_stack(&self) -> Stack<'static> {
        self.stack
    }

    pub fn new(stack: Stack<'static>) -> (r: Self)
        ensures
            r.ip_stack() == stack,
    {
        Self { stack }
    }

    pub fn stack(&self) -> (r: Stack<'static>)
        ensures
            r == self.ip_stack(),
    {
        self.stack
    }

    /// The address that `connect` dials: a dotted-decimal IPv4 address,
    /// or `InvalidAddress`.
    pub fn resolve(address: &str) -> (r: Result<[u8; 4], Rp235xTcpError>)
        ensures
            match r {
                Ok(o) => ipv4_octets(address.spec_bytes()) == Some((o@[0], o@[1], o@[2], o@[3])),
                Err(e) => e is InvalidAddress && ipv4_octets(address.spec_bytes()) is None,
            },
    {
        match parse_ipv4(address) {
            Some(o) => Ok(o),
            None => Err(Rp235xTcpError::InvalidAddress),
        }
    }
}

/// An open TCP connection.
pub struct Rp235xTcpConnection<'a> {
    socket: TcpSocket<'a>,
    /// Whether `close` has shut the connection's sending side.
    closed: Ghost<bool>,
}

impl<'a> Rp235xTcpConnection<'a> {
    pub closed spec fn tcp_socket(&self) -> TcpSocket<'a> {
        self.socket
    }

    /// Whether the connection was closed through `close`: its sending side
    /// is shut (`TcpSocket::close` sends a FIN once the queued data is
    /// out); the peer may still send.
    pub closed spec fn is_closed(&self) -> bool {
        self.closed@
    }

    /// Takes a socket that has connected; it is open.
    pub fn new(socket: TcpSocket<'a>) -> (r: Self)
        ensures
            r.tcp_socket() == socket,
            !r.is_closed(),
    {
        Self { socket, closed: Ghost(false) }
    }

    pub fn socket(&mut self) -> (r: &mut TcpSocket<'a>)
        ensures
            *r == old(self).tcp_socket(),
            final(self).tcp_socket() == *final(r),
            final(self).is_closed() == old(self).is_closed(),
    {
        &mut self.socket
    }

    /// Closes the connection's sending side: queued data still goes out,
    /// the last of it with FIN; closing twice is harmless.
    pub fn close(&mut self)
        ensures
            final(self).is_closed(),
            final(self).tcp_socket() == old(self).tcp_socket(),
    {
        close_connection(self);
    }
}

/// Closes the connection's socket with `TcpSocket::close`, which shuts its
/// sending side: the smoltcp socket moves to FIN-WAIT-1 or LAST-ACK (to
/// CLOSED where no connection was synchronized) and sends FIN after the
/// data already queued; on a socket whose sending side is shut it does
/// nothing. The call cannot fail and leaves the socket handle as it is;
/// the state inside the stack is not modelled beyond the closed flag.
#[verifier::external_body]
fn close_connection(connection: &mut Rp235xTcpConnection<'_>)
    ensures
        final(connection).is_closed(),
        final(connection).tcp_socket() == old(connection).tcp_socket(),
{
    connection.socket.close();
    connection.closed = Ghost(true);
}

/// An HTTP client on the board's IP stack.
pub struct Rp235xHttp {
    stack: Stack<'static>,
}

impl Rp235xHttp {
    pub closed spec fn ip_stack(&self) -> Stack<'static> {
        self.stack
    }

    pub fn new(stack: Stack<'static>) -> (r: Self)
        ensures
            r.ip_stack() == stack,
    {
        Self { stack }
    }

    pub fn stack(&self) -> (r: Stack<'static>)
        ensures
            r == self.ip_stack(),
    {
        self.stack
    }
}

/// A UDP endpoint on the board's IP stack.
pub struct Rp235xUdp {
    stack: Stack<'static>,
}

impl Rp235xUdp {
    pub closed spec fn ip_stack(&self) -> Stack<'static> {
        self.stack
    }

    pub fn new(stack: Stack<'static>) -> (r: Self)
        ensures
            r.ip_stack() == stack,
    {
        Self { stack }
    }

    pub fn stack(&self) -> (r: Stack<'static>)
        ensures
            r == self.ip_stack(),
    {
        self.stack
    }
}

} // verus!
