//! The bytes that the relay and its clients exchange. Numbers are sent most significant byte
//! first.
use vstd::prelude::*;

use crate::relay_error::RelayError;
use crate::text::text_from_utf8_lossy;

verus! {

broadcast use vstd::slice::group_slice_axioms;

/// The number that opens every message that a client addresses to the relay itself.
pub const RELAY_MAGIC: u32 = 0x7f8a9b0c;

/// The longest host name, in bytes, that a login may carry.
pub const MAX_HOST_LEN: u32 = 64;

// ---------------------------------------------------------------------------
// Numbers

/// The four bytes of a number.
pub open spec fn be_bytes(x: u32) -> Seq<u8> {
    seq![
        (x / 0x100_0000) as u8,
        (x / 0x1_0000 % 0x100) as u8,
        (x / 0x100 % 0x100) as u8,
        (x % 0x100) as u8,
    ]
}

/// The number that four bytes spell.
pub open spec fn be_number(bytes: Seq<u8>) -> u32 {
    (bytes[0] * 0x100_0000 + bytes[1] * 0x1_0000 + bytes[2] * 0x100 + bytes[3]) as u32
}

/// Reading a number back gives the number that was written.
#[verifier::spinoff_prover]
pub proof fn number_survives_the_wire(x: u32)
    ensures
        be_bytes(x).len() == 4,
        be_number(be_bytes(x)) == x,
{
    let high = x / 0x1_0000;
    assert(x == high * 0x1_0000 + x / 0x100 % 0x100 * 0x100 + x % 0x100);
    assert(high == x / 0x100_0000 * 0x100 + high % 0x100);
}

/// Four bytes are the bytes of the number that they spell.
#[verifier::spinoff_prover]
pub proof fn bytes_survive_reading(bytes: Seq<u8>)
    requires
        bytes.len() == 4,
    ensures
        be_bytes(be_number(bytes)) == bytes,
{
    let (a, b, c, d) = (bytes[0], bytes[1], bytes[2], bytes[3]);
    let x = be_number(bytes);
    assert(x / 0x100 == a * 0x1_0000 + b * 0x100 + c);
    assert(x / 0x1_0000 == a * 0x100 + b);
    assert(x / 0x100_0000 == a);
    assert(be_bytes(x) =~= bytes);
}

/// Four bytes spell the number whose digits in base 256 they are, the most significant first.
#[verifier::spinoff_prover]
pub proof fn bytes_spell_their_number(bytes: Seq<u8>)
    requires
        bytes.len() == 4,
    ensures
        be_number(bytes) == ((bytes[0] * 256 + bytes[1]) * 256 + bytes[2]) * 256 + bytes[3],
{
}

/// The four bytes of a number are its digits in base 256, the most significant first.
#[verifier::spinoff_prover]
pub proof fn number_has_its_digits(x: u32)
    ensures
        be_bytes(x).len() == 4,
        ({
            let digits = be_bytes(x);
            ((digits[0] * 256 + digits[1]) * 256 + digits[2]) * 256 + digits[3] == x
        }),
{
    number_survives_the_wire(x);
}

/// Where the parts of a message stand that consists of four bytes, one byte, four bytes and a
/// body.
proof fn lemma_message_parts(first: Seq<u8>, mark: u8, second: Seq<u8>, body: Seq<u8>)
    requires
        first.len() == 4,
        second.len() == 4,
    ensures
        ({
            let message = first + seq![mark] + second + body;
            &&& message.len() == 9 + body.len()
            &&& message.subrange(0, 4) == first
            &&& message[4] == mark
            &&& message.subrange(5, 9) == second
            &&& message.subrange(9, 9 + body.len() as int) == body
        }),
{
    let message = first + seq![mark] + second + body;
    assert(message.subrange(0, 4) =~= first);
    assert(message.subrange(5, 9) =~= second);
    assert(message.subrange(9, 9 + body.len() as int) =~= body);
}

/// Appends the four bytes of a number.
fn push_number(out: &mut Vec<u8>, x: u32)
    ensures
        final(out)@ == old(out)@ + be_bytes(x),
{
    out.push((x / 0x100_0000) as u8);
    out.push((x / 0x1_0000 % 0x100) as u8);
    out.push((x / 0x100 % 0x100) as u8);
    out.push((x % 0x100) as u8);
    assert(out@ =~= old(out)@ + be_bytes(x));
}

/// Reads the number that stands at `at`.
fn number_at(bytes: &[u8], at: usize) -> (x: u32)
    requires
        at + 4 <= bytes@.len(),
    ensures
        x == be_number(bytes@.subrange(at as int, at + 4)),
        x == ((bytes@[at as int] * 256 + bytes@[at + 1]) * 256 + bytes@[at + 2]) * 256 + bytes@[at
            + 3],
{
    bytes[at] as u32 * 0x100_0000 + bytes[at + 1] as u32 * 0x1_0000 + bytes[at + 2] as u32 * 0x100
        + bytes[at + 3] as u32
}

/// Appends `bytes`.
fn push_bytes(out: &mut Vec<u8>, bytes: &[u8])
    ensures
        final(out)@ == old(out)@ + bytes@,
{
    let mut i: usize = 0;
    while i < bytes.len()
        invariant
            i <= bytes@.len(),
            out@ == old(out)@ + bytes@.take(i as int),
        decreases bytes@.len() - i,
    {
        out.push(bytes[i]);
        i = i + 1;
        assert(out@ =~= old(out)@ + bytes@.take(i as int));
    }
    assert(bytes@.take(i as int) =~= bytes@);
}

// ---------------------------------------------------------------------------
// Login

/// The bytes of a login: a marker that is meant for the server behind the relay, the magic
/// number, and the address of that server as text, after its length.
pub open spec fn login_request(marker: u8, host: Seq<u8>) -> Seq<u8> {
    seq![marker] + be_bytes(RELAY_MAGIC) + be_bytes(host.len() as u32) + host
}

/// How far a login has come.
pub enum LoginProgress {
    /// At most this many more bytes are to be read before anything can be decided.
    Read(usize),
    /// The login is refused.
    Refused(RelayError),
    /// The login is complete and names this host.
    Host(String),
}

/// The mathematical reading of [`LoginProgress`].
pub enum LoginProgressView {
    Read(nat),
    Refused(RelayError),
    Host(Seq<char>),
}

impl View for LoginProgress {
    type V = LoginProgressView;

    open spec fn view(&self) -> LoginProgressView {
        match self {
            LoginProgress::Read(n) => LoginProgressView::Read(*n as nat),
            LoginProgress::Refused(e) => LoginProgressView::Refused(*e),
            LoginProgress::Host(host) => LoginProgressView::Host(host@),
        }
    }
}

/// The reading of a login's progress keeps what it asks for, why it is refused, and its host.
pub proof fn progress_reads_as_it_stands(n: usize, error: RelayError, host: String)
    ensures
        LoginProgress::Read(n)@ == LoginProgressView::Read(n as nat),
        LoginProgress::Refused(error)@ == LoginProgressView::Refused(error),
        LoginProgress::Host(host)@ == LoginProgressView::Host(host@),
{
}

/// How far a login has come once `received` has arrived. The marker is read first, then the
/// magic number, then the length of the host, then the host; each part is judged as soon as it
/// is there, and nothing past the host is ever asked for.
pub open spec fn login_progress(received: Seq<u8>) -> LoginProgressView {
    let len = received.len();
    let host_len = be_number(received.subrange(5, 9));
    if len < 1 {
        LoginProgressView::Read(1)
    } else if len < 5 {
        LoginProgressView::Read((5 - len) as nat)
    } else if be_number(received.subrange(1, 5)) != RELAY_MAGIC {
        LoginProgressView::Refused(RelayError::InvalidMagic)
    } else if len < 9 {
        LoginProgressView::Read((9 - len) as nat)
    } else if host_len > MAX_HOST_LEN {
        LoginProgressView::Refused(RelayError::InvalidHost)
    } else if len < 9 + host_len {
        LoginProgressView::Read((9 + host_len - len) as nat)
    } else {
        LoginProgressView::Host(crate::text::lossy_text(received.subrange(9, 9 + host_len)))
    }
}

/// How many bytes a login has, going by the length of its host.
pub open spec fn login_len(received: Seq<u8>) -> int {
    9 + be_number(received.subrange(5, 9))
}

/// The bytes of the host in a complete login.
pub open spec fn host_bytes(received: Seq<u8>) -> Seq<u8> {
    received.subrange(9, login_len(received))
}

/// The text of the host in a complete login.
pub open spec fn host_text(received: Seq<u8>) -> Seq<char> {
    crate::text::lossy_text(host_bytes(received))
}

/// Whether the text of the host in a complete login is made of the characters that its bytes
/// encode, where they encode any.
pub open spec fn host_is_decoded(received: Seq<u8>) -> bool {
    vstd::utf8::valid_utf8(host_bytes(received)) ==> host_text(received)
        == vstd::utf8::decode_utf8(host_bytes(received))
}

/// Judges the bytes of a login that have arrived so far.
pub fn read_login(received: &Vec<u8>) -> (progress: LoginProgress)
    ensures
        progress@ == login_progress(received@),
        progress matches LoginProgress::Host(host) ==> host@ == host_text(received@)
            && host_is_decoded(received@),
{
    let len: usize = received.len();
    if len < 1 {
        return LoginProgress::Read(1);
    }
    if len < 5 {
        return LoginProgress::Read(5 - len);
    }
    if number_at(received.as_slice(), 1) != RELAY_MAGIC {
        return LoginProgress::Refused(RelayError::InvalidMagic);
    }
    if len < 9 {
        return LoginProgress::Read(9 - len);
    }
    let host_len: u32 = number_at(received.as_slice(), 5);
    if host_len > MAX_HOST_LEN {
        return LoginProgress::Refused(RelayError::InvalidHost);
    }
    let end: usize = 9 + host_len as usize;
    if len < end {
        return LoginProgress::Read(end - len);
    }
    LoginProgress::Host(
        text_from_utf8_lossy(vstd::slice::slice_subrange(received.as_slice(), 9, end)),
    )
}

/// How far a login has come whose first `k` bytes have arrived, in terms of its parts.
proof fn lemma_login_parts(marker: u8, magic: Seq<u8>, len: Seq<u8>, host: Seq<u8>, k: int)
    requires
        magic.len() == 4,
        len.len() == 4,
        be_number(magic) == RELAY_MAGIC,
        be_number(len) == host.len(),
        0 <= k <= 9 + host.len(),
    ensures
        login_progress((seq![marker] + magic + len + host).take(k)) == if k < 1 {
            LoginProgressView::Read(1)
        } else if k < 5 {
            LoginProgressView::Read((5 - k) as nat)
        } else if k < 9 {
            LoginProgressView::Read((9 - k) as nat)
        } else if host.len() > MAX_HOST_LEN {
            LoginProgressView::Refused(RelayError::InvalidHost)
        } else if k < 9 + host.len() {
            LoginProgressView::Read((9 + host.len() - k) as nat)
        } else {
            LoginProgressView::Host(crate::text::lossy_text(host))
        },
{
    let arrived = (seq![marker] + magic + len + host).take(k);
    if k >= 5 {
        assert(arrived.subrange(1, 5) =~= magic);
    }
    if k >= 9 {
        assert(arrived.subrange(5, 9) =~= len);
    }
    if k == 9 + host.len() {
        assert(arrived.subrange(9, k) =~= host);
    }
}

/// A complete login is read back: its host comes out, and its first byte is its marker.
pub proof fn login_is_read_back(marker: u8, host: Seq<u8>)
    requires
        host.len() <= MAX_HOST_LEN,
    ensures
        login_progress(login_request(marker, host)) == LoginProgressView::Host(
            crate::text::lossy_text(host),
        ),
        login_request(marker, host)[0] == marker,
{
    let (magic, len) = (be_bytes(RELAY_MAGIC), be_bytes(host.len() as u32));
    number_survives_the_wire(RELAY_MAGIC);
    number_survives_the_wire(host.len() as u32);
    lemma_login_parts(marker, magic, len, host, 9 + host.len() as int);
    assert(login_request(marker, host).take(9 + host.len() as int) =~= login_request(
        marker,
        host,
    ));
}

/// While a login of an acceptable length is incomplete, more bytes are asked for, and never more
/// than the login still has: what a client sends after its login is left for the server.
pub proof fn login_never_reads_past_its_end(marker: u8, host: Seq<u8>, k: int)
    requires
        host.len() <= MAX_HOST_LEN,
        0 <= k < login_request(marker, host).len(),
    ensures
        login_progress(login_request(marker, host).take(k)) matches LoginProgressView::Read(n) && 0
            < n <= login_request(marker, host).len() - k,
{
    number_survives_the_wire(RELAY_MAGIC);
    number_survives_the_wire(host.len() as u32);
    lemma_login_parts(marker, be_bytes(RELAY_MAGIC), be_bytes(host.len() as u32), host, k);
}

/// A host that is too long is refused as soon as its length is known, before any of it is read.
pub proof fn long_host_is_refused_unread(marker: u8, host: Seq<u8>)
    requires
        MAX_HOST_LEN < host.len() <= u32::MAX,
    ensures
        login_progress(login_request(marker, host).take(9)) == LoginProgressView::Refused(
            RelayError::InvalidHost,
        ),
{
    number_survives_the_wire(RELAY_MAGIC);
    number_survives_the_wire(host.len() as u32);
    lemma_login_parts(marker, be_bytes(RELAY_MAGIC), be_bytes(host.len() as u32), host, 9);
}

/// Whatever follows the marker, a wrong magic number is refused as soon as it is complete, and
/// nothing that arrives later changes that.
pub proof fn wrong_magic_is_refused(received: Seq<u8>)
    requires
        received.len() >= 5,
        received.subrange(1, 5) != be_bytes(RELAY_MAGIC),
    ensures
        login_progress(received) == LoginProgressView::Refused(RelayError::InvalidMagic),
{
    bytes_survive_reading(received.subrange(1, 5));
}

/// Before its magic number is complete, nothing is decided about a login: its marker is asked for
/// on its own, and then what is missing of the magic number.
pub proof fn login_opens_with_its_marker_and_magic(received: Seq<u8>)
    requires
        received.len() < 5,
    ensures
        received.len() == 0 ==> login_progress(received) == LoginProgressView::Read(1),
        received.len() > 0 ==> login_progress(received) == LoginProgressView::Read(
            (5 - received.len()) as nat,
        ),
{
}

/// A login is refused for its magic number exactly when the four bytes after its marker are not
/// 7f 8a 9b 0c.
pub proof fn magic_is_known_by_its_bytes(received: Seq<u8>)
    requires
        received.len() >= 5,
    ensures
        login_progress(received) == LoginProgressView::Refused(RelayError::InvalidMagic)
            <==> received.subrange(1, 5) != seq![0x7fu8, 0x8au8, 0x9bu8, 0x0cu8],
{
    let magic = received.subrange(1, 5);
    bytes_spell_their_number(magic);
    if be_number(magic) == RELAY_MAGIC {
        bytes_survive_reading(magic);
        assert(magic =~= seq![0x7fu8, 0x8au8, 0x9bu8, 0x0cu8]);
    }
}

/// Where the parts of a login stand whose marker and magic number are complete.
proof fn lemma_opened_login(marker: u8, rest: Seq<u8>)
    ensures
        ({
            let received = seq![marker, 0x7fu8, 0x8au8, 0x9bu8, 0x0cu8] + rest;
            &&& received.len() == 5 + rest.len()
            &&& received[0] == marker
            &&& be_number(received.subrange(1, 5)) == RELAY_MAGIC
            &&& rest.len() >= 4 ==> received.subrange(5, 9) == rest.take(4)
        }),
{
    let received = seq![marker, 0x7fu8, 0x8au8, 0x9bu8, 0x0cu8] + rest;
    bytes_spell_their_number(received.subrange(1, 5));
    if rest.len() >= 4 {
        assert(received.subrange(5, 9) =~= rest.take(4));
    }
}

/// After its magic number, what is missing of the length of its host is asked for.
pub proof fn length_of_the_host_is_asked_for(marker: u8, rest: Seq<u8>)
    requires
        rest.len() < 4,
    ensures
        login_progress(seq![marker, 0x7fu8, 0x8au8, 0x9bu8, 0x0cu8] + rest)
            == LoginProgressView::Read((4 - rest.len()) as nat),
{
    lemma_opened_login(marker, rest);
}

/// The four bytes after the magic number are the length of the host, most significant first. A
/// length of more than 64 is refused at once, whatever follows. Otherwise that many bytes are
/// asked for, less those that have arrived; and once they are there they are the host, whatever
/// follows them.
pub proof fn host_is_as_long_as_announced(
    marker: u8,
    a: u8,
    b: u8,
    c: u8,
    d: u8,
    rest: Seq<u8>,
)
    ensures
        ({
            let announced = ((a * 256 + b) * 256 + c) * 256 + d;
            let received = seq![marker, 0x7fu8, 0x8au8, 0x9bu8, 0x0cu8] + (seq![a, b, c, d] + rest);
            &&& announced > 64 ==> login_progress(received) == LoginProgressView::Refused(
                RelayError::InvalidHost,
            )
            &&& announced <= 64 && rest.len() < announced ==> login_progress(received)
                == LoginProgressView::Read((announced - rest.len()) as nat)
            &&& announced <= 64 && rest.len() >= announced ==> {
                &&& login_progress(received) == LoginProgressView::Host(
                    crate::text::lossy_text(rest.take(announced)),
                )
                &&& login_len(received) == 9 + announced
                &&& host_bytes(received) == rest.take(announced)
                &&& host_text(received) == crate::text::lossy_text(rest.take(announced))
            }
        }),
{
    let announced = ((a * 256 + b) * 256 + c) * 256 + d;
    let length = seq![a, b, c, d];
    let received = seq![marker, 0x7fu8, 0x8au8, 0x9bu8, 0x0cu8] + (length + rest);
    lemma_opened_login(marker, length + rest);
    bytes_spell_their_number(length);
    assert((length + rest).take(4) =~= length);
    if rest.len() >= announced {
        assert(received.subrange(9, 9 + announced) =~= rest.take(announced));
    }
}

// ---------------------------------------------------------------------------
// Claiming a UDP address

/// The question that a client is sent over TCP once its host is admitted: the length of what
/// follows, the answer "go on", and the number that it is to claim its UDP address with.
pub open spec fn udp_question(id: u32) -> Seq<u8> {
    be_bytes(5) + seq![1u8] + be_bytes(id)
}

/// The datagram by which a client answers the question with number `id`.
pub open spec fn udp_claim(id: u32) -> Seq<u8> {
    be_bytes(RELAY_MAGIC) + be_bytes(id)
}

/// The number that a datagram claims, if its length and its first bytes make it a claim.
pub open spec fn claimed_id(datagram: Seq<u8>) -> Option<u32> {
    if datagram.len() == 8 && be_number(datagram.subrange(0, 4)) == RELAY_MAGIC {
        Some(be_number(datagram.subrange(4, 8)))
    } else {
        None
    }
}

/// Writes the question with number `id`.
pub fn encode_udp_question(id: u32) -> (frame: Vec<u8>)
    ensures
        frame@ == udp_question(id),
{
    let mut frame: Vec<u8> = Vec::new();
    push_number(&mut frame, 5);
    frame.push(1);
    push_number(&mut frame, id);
    assert(frame@ =~= udp_question(id));
    frame
}

/// Reads a datagram as a claim.
pub fn read_claim(datagram: &[u8]) -> (id: Option<u32>)
    ensures
        id == claimed_id(datagram@),
{
    if datagram.len() == 8 && number_at(datagram, 0) == RELAY_MAGIC {
        Some(number_at(datagram, 4))
    } else {
        None
    }
}

/// A datagram claims a number exactly when it is the answer to the question with that number.
pub proof fn only_the_answer_claims(datagram: Seq<u8>, id: u32)
    ensures
        claimed_id(datagram) == Some(id) <==> datagram == udp_claim(id),
{
    let answer = udp_claim(id);
    assert(answer.subrange(0, 4) =~= be_bytes(RELAY_MAGIC));
    assert(answer.subrange(4, 8) =~= be_bytes(id));
    if claimed_id(datagram) == Some(id) {
        bytes_survive_reading(datagram.subrange(0, 4));
        bytes_survive_reading(datagram.subrange(4, 8));
        assert(datagram =~= datagram.subrange(0, 4) + datagram.subrange(4, 8));
    }
}

/// A datagram is a claim exactly when it has eight bytes and opens with 7f 8a 9b 0c; the number
/// that it claims is spelt by the other four, most significant first.
pub proof fn claims_are_known_by_their_bytes(datagram: Seq<u8>)
    ensures
        claimed_id(datagram) is Some <==> datagram.len() == 8 && datagram.take(4)
            == seq![0x7fu8, 0x8au8, 0x9bu8, 0x0cu8],
        claimed_id(datagram) matches Some(id) ==> id == ((datagram[4] * 256 + datagram[5]) * 256
            + datagram[6]) * 256 + datagram[7],
{
    if datagram.len() == 8 {
        let magic = datagram.subrange(0, 4);
        assert(datagram.take(4) =~= magic);
        bytes_spell_their_number(magic);
        bytes_spell_their_number(datagram.subrange(4, 8));
        if be_number(magic) == RELAY_MAGIC {
            bytes_survive_reading(magic);
            assert(magic =~= seq![0x7fu8, 0x8au8, 0x9bu8, 0x0cu8]);
        }
    }
}

/// The bytes of a question: 00 00 00 05 01, and then its number, most significant byte first.
pub proof fn question_byte_for_byte(id: u32)
    ensures
        udp_question(id).len() == 9,
        udp_question(id).take(5) == seq![0u8, 0u8, 0u8, 5u8, 1u8],
        ((udp_question(id)[5] * 256 + udp_question(id)[6]) * 256 + udp_question(id)[7]) * 256
            + udp_question(id)[8] == id,
{
    number_has_its_digits(id);
    assert(udp_question(id).take(5) =~= seq![0u8, 0u8, 0u8, 5u8, 1u8]);
}

/// The question states the length of what follows it, is marked as "go on", and carries its
/// number.
pub proof fn question_carries_its_number(id: u32)
    ensures
        udp_question(id).len() == 4 + be_number(udp_question(id).subrange(0, 4)),
        udp_question(id)[4] == 1,
        be_number(udp_question(id).subrange(5, 9)) == id,
{
    number_survives_the_wire(5);
    number_survives_the_wire(id);
    lemma_message_parts(be_bytes(5), 1, be_bytes(id), Seq::empty());
    assert(udp_question(id) + Seq::empty() =~= udp_question(id));
}

// ---------------------------------------------------------------------------
// Answers

/// The answer to a client whose relay is set up.
pub open spec fn relay_established() -> Seq<u8> {
    seq![1u8]
}

/// The length of a message as it is written: its 32 low bits.
pub open spec fn written_len(message: Seq<u8>) -> u32 {
    (message.len() % 0x1_0000_0000) as u32
}

/// The answer to a client that is refused: the length of what follows, the answer "no", and the
/// reason, after its own length.
pub open spec fn relay_error(message: Seq<u8>) -> Seq<u8> {
    be_bytes((5 + written_len(message)) as u32) + seq![0u8] + be_bytes(written_len(message))
        + message
}

/// Writes the answer to a client whose relay is set up.
pub fn encode_relay_established() -> (frame: Vec<u8>)
    ensures
        frame@ == relay_established(),
{
    let mut frame: Vec<u8> = Vec::new();
    frame.push(1);
    assert(frame@ =~= relay_established());
    frame
}

/// Writes the answer to a client that is refused.
pub fn encode_relay_error(message: &[u8]) -> (frame: Vec<u8>)
    requires
        5 + written_len(message@) <= u32::MAX,
    ensures
        frame@ == relay_error(message@),
{
    let full: u64 = message.len() as u64;
    let len: u32 = (full % 0x1_0000_0000) as u32;
    let mut frame: Vec<u8> = Vec::new();
    push_number(&mut frame, 5 + len);
    frame.push(0);
    push_number(&mut frame, len);
    push_bytes(&mut frame, message);
    assert(frame@ =~= relay_error(message@));
    frame
}

/// A refusal states the length of what follows it, is marked as "no", and gives the length of
/// the reason and the reason itself.
pub proof fn refusal_carries_its_reason(message: Seq<u8>)
    requires
        5 + message.len() <= u32::MAX,
    ensures
        relay_error(message).len() == 4 + be_number(relay_error(message).subrange(0, 4)),
        relay_error(message)[4] == 0,
        be_number(relay_error(message).subrange(5, 9)) == message.len(),
        relay_error(message).subrange(9, 9 + message.len() as int) == message,
{
    let len = message.len() as u32;
    assert(written_len(message) == len);
    number_survives_the_wire((5 + len) as u32);
    number_survives_the_wire(len);
    lemma_message_parts(be_bytes((5 + len) as u32), 0, be_bytes(len), message);
}

/// The bytes of a refusal, whatever the length of its reason: the length of what follows, a zero,
/// the length of the reason, each most significant byte first, and the reason. Of a length that
/// does not fit in four bytes, the low ones are written.
pub proof fn refusal_byte_for_byte(message: Seq<u8>)
    requires
        5 + message.len() % 0x1_0000_0000 <= u32::MAX,
    ensures
        ({
            let frame = relay_error(message);
            let len = message.len() % 0x1_0000_0000;
            &&& frame.len() == 9 + message.len()
            &&& ((frame[0] * 256 + frame[1]) * 256 + frame[2]) * 256 + frame[3] == 5 + len
            &&& frame[4] == 0
            &&& ((frame[5] * 256 + frame[6]) * 256 + frame[7]) * 256 + frame[8] == len
            &&& frame.skip(9) == message
        }),
{
    let frame = relay_error(message);
    let len = written_len(message);
    let (first, second) = (be_bytes((5 + len) as u32), be_bytes(len));
    number_has_its_digits((5 + len) as u32);
    number_has_its_digits(len);
    assert(frame[0] == first[0] && frame[1] == first[1] && frame[2] == first[2] && frame[3]
        == first[3]);
    assert(frame[5] == second[0] && frame[6] == second[1] && frame[7] == second[2] && frame[8]
        == second[3]);
    assert(frame.skip(9) =~= message);
}

/// A client whose relay is set up is sent a single 01, and nothing else.
pub proof fn confirmation_byte_for_byte()
    ensures
        relay_established() == seq![1u8],
{
}

/// A client can tell the two answers to its login apart by the fifth byte: a question is never
/// a refusal.
pub proof fn question_is_no_refusal(id: u32, message: Seq<u8>)
    ensures
        udp_question(id)[4] != relay_error(message)[4],
{
}

} // verus!
