//! The ILP packet types — Prepare, Fulfill and Reject — and their binary
//! codec. Each packet is framed as a type octet, a length prefix, and the
//! packet's fields; byte strings carry their own length prefix.

use vstd::prelude::*;
use crate::oer::be_digits;
use crate::oer::be_val;
use crate::oer::spec_varlen;
use crate::oer::parse_varlen;
use crate::oer::push_be_digits;
use crate::oer::push_varlen;
use crate::oer::read_be;
use crate::oer::read_varlen;

verus! {

/// Wire tag of a Prepare packet.
pub const TYPE_PREPARE: u8 = 12;

/// Wire tag of a Fulfill packet.
pub const TYPE_FULFILL: u8 = 13;

/// Wire tag of a Reject packet.
pub const TYPE_REJECT: u8 = 14;

/// A three-octet ILP error code, such as `F02`.
#[derive(Clone, Copy, Debug, PartialEq, Eq)]
pub struct ErrorCode(pub [u8; 3]);

impl View for ErrorCode {
    type V = Seq<u8>;

    open spec fn view(&self) -> Seq<u8> {
        self.0@
    }
}

impl ErrorCode {
    /// `F00`: the peer judged the forwarded request malformed.
    pub fn f00_bad_request() -> (c: ErrorCode)
        ensures
            c@ == code_f00(),
    {
        ErrorCode([0x46, 0x30, 0x30])
    }

    /// `F02`: no route matches the destination.
    pub fn f02_unreachable() -> (c: ErrorCode)
        ensures
            c@ == code_f02(),
    {
        ErrorCode([0x46, 0x30, 0x32])
    }

    /// `R00`: the deadline elapsed before the peer answered.
    pub fn r00_transfer_timed_out() -> (c: ErrorCode)
        ensures
            c@ == code_r00(),
    {
        ErrorCode([0x52, 0x30, 0x30])
    }

    /// `R02`: the Prepare had already expired on arrival.
    pub fn r02_insufficient_timeout() -> (c: ErrorCode)
        ensures
            c@ == code_r02(),
    {
        ErrorCode([0x52, 0x30, 0x32])
    }

    /// `T00`: the peer's response could not be understood.
    pub fn t00_internal_error() -> (c: ErrorCode)
        ensures
            c@ == code_t00(),
    {
        ErrorCode([0x54, 0x30, 0x30])
    }

    /// `T01`: the peer could not be reached or failed.
    pub fn t01_peer_unreachable() -> (c: ErrorCode)
        ensures
            c@ == code_t01(),
    {
        ErrorCode([0x54, 0x30, 0x31])
    }
}

/// The octets of `F00`.
pub open spec fn code_f00() -> Seq<u8> {
    seq![0x46u8, 0x30, 0x30]
}

/// The octets of `F02`.
pub open spec fn code_f02() -> Seq<u8> {
    seq![0x46u8, 0x30, 0x32]
}

/// The octets of `R00`.
pub open spec fn code_r00() -> Seq<u8> {
    seq![0x52u8, 0x30, 0x30]
}

/// The octets of `R02`.
pub open spec fn code_r02() -> Seq<u8> {
    seq![0x52u8, 0x30, 0x32]
}

/// The octets of `T00`.
pub open spec fn code_t00() -> Seq<u8> {
    seq![0x54u8, 0x30, 0x30]
}

/// The octets of `T01`.
pub open spec fn code_t01() -> Seq<u8> {
    seq![0x54u8, 0x30, 0x31]
}

/// A conditional transfer request. `expires_at` is an absolute instant in
/// microseconds since the Unix epoch, which is also its wire precision.
#[derive(Clone, Debug, PartialEq, Eq)]
pub struct Prepare {
    pub amount: u64,
    pub expires_at: u64,
    pub execution_condition: [u8; 32],
    pub destination: Vec<u8>,
    pub data: Vec<u8>,
}

/// The mathematical image of a `Prepare`.
pub ghost struct PrepareV {
    pub amount: u64,
    pub expires_at: u64,
    pub execution_condition: Seq<u8>,
    pub destination: Seq<u8>,
    pub data: Seq<u8>,
}

impl View for Prepare {
    type V = PrepareV;

    open spec fn view(&self) -> PrepareV {
        PrepareV {
            amount: self.amount,
            expires_at: self.expires_at,
            execution_condition: self.execution_condition@,
            destination: self.destination@,
            data: self.data@,
        }
    }
}

/// A successful outcome: the preimage of the condition, plus payload.
#[derive(Clone, Debug, PartialEq, Eq)]
pub struct Fulfill {
    pub fulfillment: [u8; 32],
    pub data: Vec<u8>,
}

/// The mathematical image of a `Fulfill`.
pub ghost struct FulfillV {
    pub fulfillment: Seq<u8>,
    pub data: Seq<u8>,
}

impl View for Fulfill {
    type V = FulfillV;

    open spec fn view(&self) -> FulfillV {
        FulfillV { fulfillment: self.fulfillment@, data: self.data@ }
    }
}

/// An unsuccessful outcome: an error code, a message, and the address of the
/// node that produced it.
#[derive(Clone, Debug, PartialEq, Eq)]
pub struct Reject {
    pub code: ErrorCode,
    pub message: Vec<u8>,
    pub triggered_by: Vec<u8>,
    pub data: Vec<u8>,
}

/// The mathematical image of a `Reject`.
pub ghost struct RejectV {
    pub code: Seq<u8>,
    pub message: Seq<u8>,
    pub triggered_by: Seq<u8>,
    pub data: Seq<u8>,
}

impl View for Reject {
    type V = RejectV;

    open spec fn view(&self) -> RejectV {
        RejectV {
            code: self.code@,
            message: self.message@,
            triggered_by: self.triggered_by@,
            data: self.data@,
        }
    }
}

/// Any of the three packets, as decoding returns it.
#[derive(Clone, Debug, PartialEq, Eq)]
pub enum Packet {
    Prepare(Prepare),
    Fulfill(Fulfill),
    Reject(Reject),
}

/// The mathematical image of a `Packet`.
pub ghost enum PacketV {
    Prepare(PrepareV),
    Fulfill(FulfillV),
    Reject(RejectV),
}

impl View for Packet {
    type V = PacketV;

    open spec fn view(&self) -> PacketV {
        match self {
            Packet::Prepare(p) => PacketV::Prepare(p@),
            Packet::Fulfill(f) => PacketV::Fulfill(f@),
            Packet::Reject(r) => PacketV::Reject(r@),
        }
    }
}

/// Decoding failure: the buffer is not one well-formed packet.
#[derive(Clone, Copy, Debug, PartialEq, Eq)]
pub struct ParseError;

/// A byte string preceded by its length prefix.
pub open spec fn enc_var_octets(b: Seq<u8>) -> Seq<u8> {
    spec_varlen(b.len()) + b
}

/// The field octets of a Prepare.
pub open spec fn enc_prepare_content(p: PrepareV) -> Seq<u8> {
    be_digits(p.amount as nat, 8) + be_digits(p.expires_at as nat, 8) + p.execution_condition
        + enc_var_octets(p.destination) + enc_var_octets(p.data)
}

/// The field octets of a Fulfill.
pub open spec fn enc_fulfill_content(f: FulfillV) -> Seq<u8> {
    f.fulfillment + enc_var_octets(f.data)
}

/// The field octets of a Reject.
pub open spec fn enc_reject_content(r: RejectV) -> Seq<u8> {
    r.code + enc_var_octets(r.triggered_by) + enc_var_octets(r.message)
        + enc_var_octets(r.data)
}

/// A packet envelope: type octet, content length prefix, content.
pub open spec fn enc_envelope(t: u8, content: Seq<u8>) -> Seq<u8> {
    seq![t] + spec_varlen(content.len()) + content
}

/// The octets of an encoded Prepare.
pub open spec fn enc_prepare(p: PrepareV) -> Seq<u8> {
    enc_envelope(TYPE_PREPARE, enc_prepare_content(p))
}

/// The octets of an encoded Fulfill.
pub open spec fn enc_fulfill(f: FulfillV) -> Seq<u8> {
    enc_envelope(TYPE_FULFILL, enc_fulfill_content(f))
}

/// The octets of an encoded Reject.
pub open spec fn enc_reject(r: RejectV) -> Seq<u8> {
    enc_envelope(TYPE_REJECT, enc_reject_content(r))
}

/// The octets of an encoded packet of any kind.
pub open spec fn enc_packet(p: PacketV) -> Seq<u8> {
    match p {
        PacketV::Prepare(p) => enc_prepare(p),
        PacketV::Fulfill(f) => enc_fulfill(f),
        PacketV::Reject(r) => enc_reject(r),
    }
}

/// Appends a byte string as it stands.
fn push_bytes(out: &mut Vec<u8>, bytes: &[u8])
    ensures
        final(out)@ == old(out)@ + bytes@,
{
    let blen: usize = bytes.len();
    let mut i: usize = 0;
    while i < blen
        invariant
            i <= blen,
            bytes@.len() == blen,
            out@ == old(out)@ + bytes@.subrange(0, i as int),
        decreases blen - i,
    {
        out.push(bytes[i]);
        assert(out@ =~= old(out)@ + bytes@.subrange(0, i + 1));
        i = i + 1;
    }
    assert(out@ =~= old(out)@ + bytes@);
}

/// Appends a byte string preceded by its length prefix.
fn push_var_octets(out: &mut Vec<u8>, bytes: &[u8])
    ensures
        final(out)@ == old(out)@ + enc_var_octets(bytes@),
{
    push_varlen(out, bytes.len() as u64);
    push_bytes(out, bytes);
    assert(out@ =~= old(out)@ + enc_var_octets(bytes@));
}

/// Wraps finished content octets into an envelope.
fn seal_envelope(t: u8, content: Vec<u8>) -> (r: Vec<u8>)
    ensures
        r@ == enc_envelope(t, content@),
{
    let mut out: Vec<u8> = Vec::new();
    out.push(t);
    push_varlen(&mut out, content.len() as u64);
    push_bytes(&mut out, content.as_slice());
    assert(out@ =~= enc_envelope(t, content@));
    out
}

/// Reads a length-prefixed byte string at `pos`: the string and the position
/// after it.
pub open spec fn parse_var_octets(s: Seq<u8>, pos: int) -> Option<(Seq<u8>, int)> {
    match parse_varlen(s, pos) {
        None => None,
        Some((n, p)) => {
            if p + n <= s.len() {
                Some((s.subrange(p, p + n), p + n))
            } else {
                None
            }
        },
    }
}

/// Reads the fields of a Prepare out of exactly the content octets `c`.
pub open spec fn parse_prepare_content(c: Seq<u8>) -> Option<PrepareV> {
    if c.len() < 48 {
        None
    } else {
        let amount = be_val(c.subrange(0, 8));
        let expires = be_val(c.subrange(8, 16));
        let cond = c.subrange(16, 48);
        match parse_var_octets(c, 48) {
            None => None,
            Some((dest, p2)) => match parse_var_octets(c, p2) {
                None => None,
                Some((data, p3)) => {
                    if p3 == c.len() {
                        Some(
                            PrepareV {
                                amount: amount as u64,
                                expires_at: expires as u64,
                                execution_condition: cond,
                                destination: dest,
                                data: data,
                            },
                        )
                    } else {
                        None
                    }
                },
            },
        }
    }
}

/// Reads the fields of a Fulfill out of exactly the content octets `c`.
pub open spec fn parse_fulfill_content(c: Seq<u8>) -> Option<FulfillV> {
    if c.len() < 32 {
        None
    } else {
        let ful = c.subrange(0, 32);
        match parse_var_octets(c, 32) {
            None => None,
            Some((data, p)) => {
                if p == c.len() {
                    Some(FulfillV { fulfillment: ful, data: data })
                } else {
                    None
                }
            },
        }
    }
}

/// Reads the fields of a Reject out of exactly the content octets `c`.
pub open spec fn parse_reject_content(c: Seq<u8>) -> Option<RejectV> {
    if c.len() < 3 {
        None
    } else {
        let code = c.subrange(0, 3);
        match parse_var_octets(c, 3) {
            None => None,
            Some((trig, p1)) => match parse_var_octets(c, p1) {
                None => None,
                Some((msg, p2)) => match parse_var_octets(c, p2) {
                    None => None,
                    Some((data, p3)) => {
                        if p3 == c.len() {
                            Some(
                                RejectV {
                                    code: code,
                                    message: msg,
                                    triggered_by: trig,
                                    data: data,
                                },
                            )
                        } else {
                            None
                        }
                    },
                },
            },
        }
    }
}

/// The one decoding relation: which packet, if any, the buffer `s` holds.
/// A buffer decodes only if its envelope length is exact and every content
/// octet is consumed.
pub open spec fn spec_decode(s: Seq<u8>) -> Option<PacketV> {
    if s.len() < 1 {
        None
    } else {
        let t = s[0];
        match parse_varlen(s, 1) {
            None => None,
            Some((clen, cstart)) => {
                if cstart + clen == s.len() {
                    let c = s.subrange(cstart, s.len() as int);
                    if t == TYPE_PREPARE {
                        match parse_prepare_content(c) {
                            None => None,
                            Some(p) => Some(PacketV::Prepare(p)),
                        }
                    } else if t == TYPE_FULFILL {
                        match parse_fulfill_content(c) {
                            None => None,
                            Some(f) => Some(PacketV::Fulfill(f)),
                        }
                    } else if t == TYPE_REJECT {
                        match parse_reject_content(c) {
                            None => None,
                            Some(r) => Some(PacketV::Reject(r)),
                        }
                    } else {
                        None
                    }
                } else {
                    None
                }
            },
        }
    }
}

/// If a window of `s` holds `x + y`, its two halves hold `x` and `y`.
proof fn lemma_subrange_split(s: Seq<u8>, pos: int, x: Seq<u8>, y: Seq<u8>)
    requires
        0 <= pos,
        pos + x.len() + y.len() <= s.len(),
        s.subrange(pos, pos + x.len() + y.len()) == x + y,
    ensures
        s.subrange(pos, pos + x.len()) == x,
        s.subrange(pos + x.len(), pos + x.len() + y.len()) == y,
{
    let w = s.subrange(pos, pos + x.len() + y.len());
    assert forall|i: int| 0 <= i < x.len() implies s.subrange(pos, pos + x.len())[i] == x[i] by {
        assert(w[i] == (x + y)[i]);
    }
    assert(s.subrange(pos, pos + x.len()) =~= x);
    assert forall|i: int| 0 <= i < y.len() implies s.subrange(
        pos + x.len(),
        pos + x.len() + y.len(),
    )[i] == y[i] by {
        assert(w[x.len() + i] == (x + y)[x.len() + i]);
    }
    assert(s.subrange(pos + x.len(), pos + x.len() + y.len()) =~= y);
}

/// A byte string written by `enc_var_octets` reads back unchanged.
proof fn lemma_parse_var_octets_encoding(s: Seq<u8>, pos: int, b: Seq<u8>)
    requires
        b.len() <= u64::MAX,
        0 <= pos,
        pos + enc_var_octets(b).len() <= s.len(),
        s.subrange(pos, pos + enc_var_octets(b).len()) == enc_var_octets(b),
    ensures
        parse_var_octets(s, pos) == Some((b, pos + enc_var_octets(b).len())),
{
    let vl = spec_varlen(b.len());
    crate::oer::lemma_varlen_len(b.len());
    lemma_subrange_split(s, pos, vl, b);
    crate::oer::lemma_parse_varlen_encoding(s, pos, b.len());
}

/// The Prepare fields written by `enc_prepare_content` read back unchanged.
proof fn lemma_parse_prepare_content(p: PrepareV)
    requires
        p.execution_condition.len() == 32,
        enc_prepare_content(p).len() <= u64::MAX,
    ensures
        parse_prepare_content(enc_prepare_content(p)) == Some(p),
{
    let a = be_digits(p.amount as nat, 8);
    let b = be_digits(p.expires_at as nat, 8);
    let cond = p.execution_condition;
    let d = enc_var_octets(p.destination);
    let e = enc_var_octets(p.data);
    let c = enc_prepare_content(p);
    crate::oer::lemma_be_digits_len(p.amount as nat, 8);
    crate::oer::lemma_be_digits_len(p.expires_at as nat, 8);
    crate::oer::lemma_varlen_len(p.destination.len());
    crate::oer::lemma_varlen_len(p.data.len());
    assert(c.subrange(0, c.len() as int) =~= c);
    assert(c =~= a + (b + (cond + (d + e))));
    lemma_subrange_split(c, 0, a, b + (cond + (d + e)));
    lemma_subrange_split(c, 8, b, cond + (d + e));
    lemma_subrange_split(c, 16, cond, d + e);
    lemma_subrange_split(c, 48, d, e);
    crate::oer::lemma_pow256_values();
    crate::oer::lemma_be_val_digits_small(p.amount as nat, 8);
    crate::oer::lemma_be_val_digits_small(p.expires_at as nat, 8);
    lemma_parse_var_octets_encoding(c, 48, p.destination);
    lemma_parse_var_octets_encoding(c, 48 + d.len() as int, p.data);
}

/// The Fulfill fields written by `enc_fulfill_content` read back unchanged.
proof fn lemma_parse_fulfill_content(f: FulfillV)
    requires
        f.fulfillment.len() == 32,
        enc_fulfill_content(f).len() <= u64::MAX,
    ensures
        parse_fulfill_content(enc_fulfill_content(f)) == Some(f),
{
    let ful = f.fulfillment;
    let d = enc_var_octets(f.data);
    let c = enc_fulfill_content(f);
    crate::oer::lemma_varlen_len(f.data.len());
    assert(c.subrange(0, c.len() as int) =~= c);
    lemma_subrange_split(c, 0, ful, d);
    lemma_parse_var_octets_encoding(c, 32, f.data);
}

/// The Reject fields written by `enc_reject_content` read back unchanged.
proof fn lemma_parse_reject_content(r: RejectV)
    requires
        r.code.len() == 3,
        enc_reject_content(r).len() <= u64::MAX,
    ensures
        parse_reject_content(enc_reject_content(r)) == Some(r),
{
    let t = enc_var_octets(r.triggered_by);
    let m = enc_var_octets(r.message);
    let d = enc_var_octets(r.data);
    let c = enc_reject_content(r);
    crate::oer::lemma_varlen_len(r.triggered_by.len());
    crate::oer::lemma_varlen_len(r.message.len());
    crate::oer::lemma_varlen_len(r.data.len());
    assert(c.subrange(0, c.len() as int) =~= c);
    assert(c =~= r.code + (t + (m + d)));
    lemma_subrange_split(c, 0, r.code, t + (m + d));
    lemma_subrange_split(c, 3, t, m + d);
    lemma_subrange_split(c, 3 + t.len() as int, m, d);
    lemma_parse_var_octets_encoding(c, 3, r.triggered_by);
    lemma_parse_var_octets_encoding(c, 3 + t.len() as int, r.message);
    lemma_parse_var_octets_encoding(c, 3 + t.len() + m.len() as int, r.data);
}

/// An envelope written by `enc_envelope` opens to exactly its content.
proof fn lemma_decode_envelope(t: u8, content: Seq<u8>)
    requires
        content.len() <= u64::MAX,
    ensures
        ({
            let s = enc_envelope(t, content);
            &&& s.len() >= 1
            &&& s[0] == t
            &&& parse_varlen(s, 1) == Some((content.len(), s.len() - content.len()))
            &&& s.subrange(s.len() - content.len(), s.len() as int) == content
        }),
{
    let vl = spec_varlen(content.len());
    let s = enc_envelope(t, content);
    crate::oer::lemma_varlen_len(content.len());
    assert(s[0] == t);
    assert(s.subrange(1, s.len() as int) =~= vl + content);
    assert(s.subrange(1, 1 + vl.len() + content.len() as int) =~= vl + content);
    lemma_subrange_split(s, 1, vl, content);
    crate::oer::lemma_parse_varlen_encoding(s, 1, content.len());
}

/// Round trip: an encoded Prepare decodes to the same packet.
///
/// The size bound keeps the whole encoding addressable; every packet held in
/// memory satisfies it.
pub proof fn lemma_decode_encode_prepare(p: PrepareV)
    requires
        p.execution_condition.len() == 32,
        enc_prepare(p).len() <= u64::MAX,
    ensures
        spec_decode(enc_prepare(p)) == Some(PacketV::Prepare(p)),
{
    let c = enc_prepare_content(p);
    crate::oer::lemma_be_digits_len(p.amount as nat, 8);
    crate::oer::lemma_be_digits_len(p.expires_at as nat, 8);
    crate::oer::lemma_varlen_len(p.destination.len());
    crate::oer::lemma_varlen_len(p.data.len());
    lemma_decode_envelope(TYPE_PREPARE, c);
    lemma_parse_prepare_content(p);
}

/// Round trip: an encoded Fulfill decodes to the same packet.
pub proof fn lemma_decode_encode_fulfill(f: FulfillV)
    requires
        f.fulfillment.len() == 32,
        enc_fulfill(f).len() <= u64::MAX,
    ensures
        spec_decode(enc_fulfill(f)) == Some(PacketV::Fulfill(f)),
{
    let c = enc_fulfill_content(f);
    crate::oer::lemma_varlen_len(f.data.len());
    lemma_decode_envelope(TYPE_FULFILL, c);
    lemma_parse_fulfill_content(f);
}

/// Round trip: an encoded Reject decodes to the same packet.
pub proof fn lemma_decode_encode_reject(r: RejectV)
    requires
        r.code.len() == 3,
        enc_reject(r).len() <= u64::MAX,
    ensures
        spec_decode(enc_reject(r)) == Some(PacketV::Reject(r)),
{
    let c = enc_reject_content(r);
    crate::oer::lemma_varlen_len(r.triggered_by.len());
    crate::oer::lemma_varlen_len(r.message.len());
    crate::oer::lemma_varlen_len(r.data.len());
    lemma_decode_envelope(TYPE_REJECT, c);
    lemma_parse_reject_content(r);
}

/// Copies `buf[from..to]` into a fresh buffer.
fn copy_range(buf: &[u8], from: usize, to: usize) -> (r: Vec<u8>)
    requires
        from <= to <= buf@.len(),
    ensures
        r@ == buf@.subrange(from as int, to as int),
{
    let mut v: Vec<u8> = Vec::new();
    let mut i: usize = from;
    proof {
        assert(buf@.subrange(from as int, from as int) =~= Seq::<u8>::empty());
    }
    while i < to
        invariant
            from <= i <= to <= buf@.len(),
            v@ == buf@.subrange(from as int, i as int),
        decreases to - i,
    {
        v.push(buf[i]);
        assert(v@ =~= buf@.subrange(from as int, i + 1));
        i = i + 1;
    }
    v
}

/// Copies 32 octets starting at `from` into a fixed-width buffer.
fn copy_32(buf: &[u8], from: usize) -> (r: [u8; 32])
    requires
        from + 32 <= buf@.len(),
    ensures
        r@ == buf@.subrange(from as int, from + 32),
{
    let blen: usize = buf.len();
    let mut arr: [u8; 32] = [0u8; 32];
    let mut i: usize = 0;
    while i < 32
        invariant
            i <= 32,
            from + 32 <= buf@.len(),
            buf@.len() == blen,
            arr@.len() == 32,
            arr@.subrange(0, i as int) == buf@.subrange(from as int, from + i),
        decreases 32 - i,
    {
        arr[i] = buf[from + i];
        assert(arr@.subrange(0, i + 1) =~= buf@.subrange(from as int, from + i + 1));
        i = i + 1;
    }
    assert(arr@ =~= buf@.subrange(from as int, from + 32));
    arr
}

/// Reads a length-prefixed byte string, as `parse_var_octets` describes.
fn read_var_octets(buf: &[u8], pos: usize) -> (r: Option<(Vec<u8>, usize)>)
    ensures
        match r {
            Some((b, p)) => {
                &&& parse_var_octets(buf@, pos as int) == Some((b@, p as int))
                &&& pos <= p <= buf@.len()
            },
            None => parse_var_octets(buf@, pos as int) is None,
        },
{
    match read_varlen(buf, pos) {
        None => None,
        Some((n, p)) => {
            let blen: usize = buf.len();
            if n <= (blen - p) as u64 {
                let end: usize = p + (n as usize);
                let body = copy_range(buf, p, end);
                Some((body, end))
            } else {
                None
            }
        },
    }
}

/// Decodes the content octets of a Prepare, consuming them exactly.
fn decode_prepare_content(c: &[u8]) -> (r: Option<Prepare>)
    ensures
        match r {
            Some(p) => parse_prepare_content(c@) == Some(p@),
            None => parse_prepare_content(c@) is None,
        },
{
    let clen: usize = c.len();
    if clen < 48 {
        return None;
    }
    let amount = read_be(c, 0, 8);
    let expires_at = read_be(c, 8, 8);
    let execution_condition = copy_32(c, 16);
    match read_var_octets(c, 48) {
        None => None,
        Some((destination, p2)) => match read_var_octets(c, p2) {
            None => None,
            Some((data, p3)) => {
                if p3 == clen {
                    Some(
                        Prepare {
                            amount,
                            expires_at,
                            execution_condition,
                            destination,
                            data,
                        },
                    )
                } else {
                    None
                }
            },
        },
    }
}

/// Decodes the content octets of a Fulfill, consuming them exactly.
fn decode_fulfill_content(c: &[u8]) -> (r: Option<Fulfill>)
    ensures
        match r {
            Some(f) => parse_fulfill_content(c@) == Some(f@),
            None => parse_fulfill_content(c@) is None,
        },
{
    let clen: usize = c.len();
    if clen < 32 {
        return None;
    }
    let fulfillment = copy_32(c, 0);
    match read_var_octets(c, 32) {
        None => None,
        Some((data, p)) => {
            if p == clen {
                Some(Fulfill { fulfillment, data })
            } else {
                None
            }
        },
    }
}

/// Decodes the content octets of a Reject, consuming them exactly.
fn decode_reject_content(c: &[u8]) -> (r: Option<Reject>)
    ensures
        match r {
            Some(j) => parse_reject_content(c@) == Some(j@),
            None => parse_reject_content(c@) is None,
        },
{
    let clen: usize = c.len();
    if clen < 3 {
        return None;
    }
    let code = ErrorCode([c[0], c[1], c[2]]);
    proof {
        assert(code@ =~= c@.subrange(0, 3));
    }
    match read_var_octets(c, 3) {
        None => None,
        Some((triggered_by, p1)) => match read_var_octets(c, p1) {
            None => None,
            Some((message, p2)) => match read_var_octets(c, p2) {
                None => None,
                Some((data, p3)) => {
                    if p3 == clen {
                        Some(Reject { code, message, triggered_by, data })
                    } else {
                        None
                    }
                },
            },
        },
    }
}

/// Decodes a buffer into one of the three packets, or fails. This is the one
/// entry point for arbitrary input; `spec_decode` says exactly which buffers
/// succeed.
pub fn decode_packet(buf: &[u8]) -> (r: Result<Packet, ParseError>)
    ensures
        match r {
            Ok(p) => spec_decode(buf@) == Some(p@),
            Err(_) => spec_decode(buf@) is None,
        },
{
    let blen: usize = buf.len();
    if blen < 1 {
        return Err(ParseError);
    }
    let t = buf[0];
    match read_varlen(buf, 1) {
        None => Err(ParseError),
        Some((clen, cstart)) => {
            if clen != ((blen - cstart) as u64) {
                return Err(ParseError);
            }
            let content = copy_range(buf, cstart, blen);
            if t == TYPE_PREPARE {
                match decode_prepare_content(content.as_slice()) {
                    Some(p) => Ok(Packet::Prepare(p)),
                    None => Err(ParseError),
                }
            } else if t == TYPE_FULFILL {
                match decode_fulfill_content(content.as_slice()) {
                    Some(f) => Ok(Packet::Fulfill(f)),
                    None => Err(ParseError),
                }
            } else if t == TYPE_REJECT {
                match decode_reject_content(content.as_slice()) {
                    Some(j) => Ok(Packet::Reject(j)),
                    None => Err(ParseError),
                }
            } else {
                Err(ParseError)
            }
        },
    }
}

/// Decodes a buffer that must hold a Prepare, as the ingress side requires.
pub fn decode_prepare(buf: &[u8]) -> (r: Result<Prepare, ParseError>)
    ensures
        match r {
            Ok(p) => spec_decode(buf@) == Some(PacketV::Prepare(p@)),
            Err(_) => forall|p: PrepareV| spec_decode(buf@) != Some(PacketV::Prepare(p)),
        },
{
    match decode_packet(buf) {
        Ok(Packet::Prepare(p)) => Ok(p),
        _ => Err(ParseError),
    }
}

impl Prepare {
    /// Serializes this packet into one contiguous buffer.
    pub fn encode(&self) -> (r: Vec<u8>)
        ensures
            r@ == enc_prepare(self@),
    {
        let mut content: Vec<u8> = Vec::new();
        push_be_digits(&mut content, self.amount, 8);
        push_be_digits(&mut content, self.expires_at, 8);
        push_bytes(&mut content, self.execution_condition.as_slice());
        push_var_octets(&mut content, self.destination.as_slice());
        push_var_octets(&mut content, self.data.as_slice());
        assert(content@ =~= enc_prepare_content(self@));
        seal_envelope(TYPE_PREPARE, content)
    }
}

impl Fulfill {
    /// Serializes this packet into one contiguous buffer.
    pub fn encode(&self) -> (r: Vec<u8>)
        ensures
            r@ == enc_fulfill(self@),
    {
        let mut content: Vec<u8> = Vec::new();
        push_bytes(&mut content, self.fulfillment.as_slice());
        push_var_octets(&mut content, self.data.as_slice());
        assert(content@ =~= enc_fulfill_content(self@));
        seal_envelope(TYPE_FULFILL, content)
    }
}

impl Reject {
    /// Serializes this packet into one contiguous buffer.
    pub fn encode(&self) -> (r: Vec<u8>)
        ensures
            r@ == enc_reject(self@),
    {
        let mut content: Vec<u8> = Vec::new();
        push_bytes(&mut content, self.code.0.as_slice());
        push_var_octets(&mut content, self.triggered_by.as_slice());
        push_var_octets(&mut content, self.message.as_slice());
        push_var_octets(&mut content, self.data.as_slice());
        assert(content@ =~= enc_reject_content(self@));
        seal_envelope(TYPE_REJECT, content)
    }
}

} // verus!
