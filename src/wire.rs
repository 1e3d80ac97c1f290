use crate::codec::{
    codec_error_text, decode_text, decode_u32, encode_text, encode_u32, holds_text, text_bytes,
    text_of,
};
use crate::error::{DemoniteErr, ErrView};
use vstd::bytes::{
    lemma_auto_spec_u32_to_from_le_bytes, lemma_auto_spec_u64_to_from_le_bytes,
    spec_u32_from_le_bytes, spec_u32_to_le_bytes,
};
use vstd::prelude::*;
use vstd::slice::{slice_subrange, slice_to_vec};
use vstd::string::StringExecFns;
use vstd::utf8::{encode_utf8, encode_utf8_decode_utf8, encode_utf8_valid_utf8};

verus! {

/// The four bytes that name a variant: its position, little-endian.
pub open spec fn tag_bytes(t: u32) -> Seq<u8> {
    spec_u32_to_le_bytes(t)
}

/// The variant named by the first four bytes of `b`.
pub open spec fn tag_of(b: Seq<u8>) -> u32 {
    spec_u32_from_le_bytes(b.subrange(0, 4))
}

/// What follows the four bytes of a variant's tag.
pub open spec fn after_tag(b: Seq<u8>) -> Seq<u8> {
    b.subrange(4, b.len() as int)
}

/// The bytes of a call message: the procedure's position, then its encoded
/// arguments.
pub open spec fn call_bytes(procedure: u32, args: Seq<u8>) -> Seq<u8> {
    tag_bytes(procedure) + args
}

/// The call that `b` carries for a service of `count` procedures, if any.
pub open spec fn parse_call(b: Seq<u8>, count: u32) -> Option<(u32, Seq<u8>)> {
    if b.len() < 4 || tag_of(b) >= count {
        None
    } else {
        Some((tag_of(b), after_tag(b)))
    }
}

/// The bytes of an error value: its variant, then its field.
pub open spec fn err_bytes(e: ErrView) -> Seq<u8> {
    match e {
        ErrView::Serialize(m) => tag_bytes(0) + text_bytes(m),
        ErrView::Io(m) => tag_bytes(1) + text_bytes(m),
        ErrView::EnvVar(m) => tag_bytes(2) + text_bytes(m),
        ErrView::XdgRuntimeDirInvPerm(mode) => tag_bytes(3) + spec_u32_to_le_bytes(mode),
        ErrView::XdgRuntimeDirMissing => tag_bytes(4),
        ErrView::AlreadyRunning => tag_bytes(5),
    }
}

/// The error value at the start of `b`, if it holds one.
pub open spec fn parse_err(b: Seq<u8>) -> Option<ErrView> {
    if b.len() < 4 {
        None
    } else {
        let rest = after_tag(b);
        let t = tag_of(b);
        if t <= 2 {
            if holds_text(rest) {
                Some(
                    if t == 0 {
                        ErrView::Serialize(text_of(rest))
                    } else if t == 1 {
                        ErrView::Io(text_of(rest))
                    } else {
                        ErrView::EnvVar(text_of(rest))
                    },
                )
            } else {
                None
            }
        } else if t == 3 {
            if rest.len() >= 4 {
                Some(ErrView::XdgRuntimeDirInvPerm(tag_of(rest)))
            } else {
                None
            }
        } else if t == 4 {
            Some(ErrView::XdgRuntimeDirMissing)
        } else if t == 5 {
            Some(ErrView::AlreadyRunning)
        } else {
            None
        }
    }
}

/// The bytes of a reply: variant 0 and the encoded return value, or variant 1
/// and the error.
pub open spec fn reply_bytes(r: Result<Seq<u8>, ErrView>) -> Seq<u8> {
    match r {
        Ok(payload) => tag_bytes(0) + payload,
        Err(e) => tag_bytes(1) + err_bytes(e),
    }
}

/// The reply that `b` carries, if any.
pub open spec fn parse_reply(b: Seq<u8>) -> Option<Result<Seq<u8>, ErrView>> {
    if b.len() < 4 {
        None
    } else if tag_of(b) == 0 {
        Some(Ok(after_tag(b)))
    } else if tag_of(b) == 1 {
        match parse_err(after_tag(b)) {
            Some(e) => Some(Err(e)),
            None => None,
        }
    } else {
        None
    }
}

/// The mathematical value of a reply.
pub open spec fn reply_view(r: &Result<Vec<u8>, DemoniteErr>) -> Result<Seq<u8>, ErrView> {
    match r {
        Ok(payload) => Ok(payload@),
        Err(e) => Err(e@),
    }
}

/// Whether every text in `e` has a byte length that its `u64` prefix can count.
pub open spec fn err_fits(e: ErrView) -> bool {
    match e {
        ErrView::Serialize(m) => encode_utf8(m).len() <= u64::MAX,
        ErrView::Io(m) => encode_utf8(m).len() <= u64::MAX,
        ErrView::EnvVar(m) => encode_utf8(m).len() <= u64::MAX,
        _ => true,
    }
}

/// One decoded call: which procedure, and its encoded arguments.
#[derive(Debug, PartialEq, Eq)]
pub struct Call {
    pub procedure: u32,
    pub args: Vec<u8>,
}

fn tag(t: u32) -> (r: Vec<u8>)
    ensures
        r@ == tag_bytes(t),
{
    match encode_u32(t) {
        Ok(b) => b,
        Err(_) => Vec::new(),
    }
}

fn text(s: &String) -> (r: Vec<u8>)
    ensures
        r@ == text_bytes(s@),
{
    match encode_text(s.as_str()) {
        Ok(b) => b,
        Err(_) => Vec::new(),
    }
}

fn codec_failure(e: bincode::Error) -> (r: DemoniteErr)
    ensures
        r is Serialize,
{
    DemoniteErr::Serialize(codec_error_text(&e))
}

/// Encodes a call of the procedure at position `procedure` with the already
/// encoded `args`.
pub fn encode_call_bytes(procedure: u32, args: &[u8]) -> (r: Vec<u8>)
    ensures
        r@ == call_bytes(procedure, args@),
{
    let mut out = tag(procedure);
    let mut rest = slice_to_vec(args);
    out.append(&mut rest);
    out
}

/// Decodes one call message for a service of `count` procedures. Bytes too
/// short to name a procedure, or naming one outside the service, are refused.
pub fn decode_call_bytes(b: &[u8], count: u32) -> (r: Result<Call, DemoniteErr>)
    ensures
        match parse_call(b@, count) {
            Some((p, args)) => r matches Ok(c) && c.procedure == p && c.args@ == args,
            None => r matches Err(e) && e is Serialize,
        },
{
    match decode_u32(b) {
        Err(e) => Err(codec_failure(e)),
        Ok(p) => {
            if p >= count {
                Err(DemoniteErr::Serialize(String::from_str("unknown procedure")))
            } else {
                let args = slice_to_vec(slice_subrange(b, 4, b.len()));
                Ok(Call { procedure: p, args })
            }
        },
    }
}

/// Encodes an error value.
pub fn encode_error(e: &DemoniteErr) -> (r: Vec<u8>)
    ensures
        r@ == err_bytes(e@),
{
    match e {
        DemoniteErr::Serialize(m) => {
            let mut out = tag(0);
            let mut field = text(m);
            out.append(&mut field);
            out
        },
        DemoniteErr::Io(m) => {
            let mut out = tag(1);
            let mut field = text(m);
            out.append(&mut field);
            out
        },
        DemoniteErr::EnvVar(m) => {
            let mut out = tag(2);
            let mut field = text(m);
            out.append(&mut field);
            out
        },
        DemoniteErr::XdgRuntimeDirInvPerm(mode) => {
            let mut out = tag(3);
            let mut field = tag(*mode);
            out.append(&mut field);
            out
        },
        DemoniteErr::XdgRuntimeDirMissing => tag(4),
        DemoniteErr::AlreadyRunning => tag(5),
    }
}

/// Decodes an error value; bytes that hold none give `None`.
pub fn decode_error(b: &[u8]) -> (r: Option<DemoniteErr>)
    ensures
        match parse_err(b@) {
            Some(e) => r matches Some(x) && x@ == e,
            None => r is None,
        },
{
    let t = match decode_u32(b) {
        Ok(t) => t,
        Err(_) => return None,
    };
    let rest = slice_subrange(b, 4, b.len());
    if t <= 2 {
        match decode_text(rest) {
            Ok(m) => {
                if t == 0 {
                    Some(DemoniteErr::Serialize(m))
                } else if t == 1 {
                    Some(DemoniteErr::Io(m))
                } else {
                    Some(DemoniteErr::EnvVar(m))
                }
            },
            Err(_) => None,
        }
    } else if t == 3 {
        match decode_u32(rest) {
            Ok(mode) => Some(DemoniteErr::XdgRuntimeDirInvPerm(mode)),
            Err(_) => None,
        }
    } else if t == 4 {
        Some(DemoniteErr::XdgRuntimeDirMissing)
    } else if t == 5 {
        Some(DemoniteErr::AlreadyRunning)
    } else {
        None
    }
}

/// Encodes the outcome of a procedure as the reply sent back to the caller.
pub fn encode_reply(r: &Result<Vec<u8>, DemoniteErr>) -> (out: Vec<u8>)
    ensures
        out@ == reply_bytes(reply_view(r)),
{
    match r {
        Ok(payload) => {
            let mut out = tag(0);
            let mut rest = slice_to_vec(payload.as_slice());
            out.append(&mut rest);
            out
        },
        Err(e) => {
            let mut out = tag(1);
            let mut rest = encode_error(e);
            out.append(&mut rest);
            out
        },
    }
}

/// Decodes a reply: the encoded return value, the error that the service
/// sent, or a `Serialize` error where the bytes hold no reply.
pub fn decode_reply(b: &[u8]) -> (r: Result<Vec<u8>, DemoniteErr>)
    ensures
        match parse_reply(b@) {
            Some(v) => reply_view(&r) == v,
            None => r matches Err(e) && e is Serialize,
        },
{
    let t = match decode_u32(b) {
        Ok(t) => t,
        Err(e) => return Err(codec_failure(e)),
    };
    let rest = slice_subrange(b, 4, b.len());
    if t == 0 {
        Ok(slice_to_vec(rest))
    } else if t == 1 {
        match decode_error(rest) {
            Some(e) => Err(e),
            None => Err(DemoniteErr::Serialize(String::from_str("malformed error value"))),
        }
    } else {
        Err(DemoniteErr::Serialize(String::from_str("unknown reply variant")))
    }
}

/// What a server sends back for `request`, given the procedures it serves:
/// nothing where the request holds no call, else the reply that carries the
/// called procedure's outcome.
pub open spec fn served(
    request: Seq<u8>,
    count: u32,
    procedures: spec_fn(u32, Seq<u8>) -> Result<Seq<u8>, ErrView>,
) -> Option<Seq<u8>> {
    match parse_call(request, count) {
        Some((p, args)) => Some(reply_bytes(procedures(p, args))),
        None => None,
    }
}

/// A call to a declared procedure decodes to that procedure and its arguments.
pub proof fn lemma_call_round_trip(procedure: u32, args: Seq<u8>, count: u32)
    requires
        procedure < count,
    ensures
        parse_call(call_bytes(procedure, args), count) == Some((procedure, args)),
{
    lemma_auto_spec_u32_to_from_le_bytes();
    let b = call_bytes(procedure, args);
    assert(b.subrange(0, 4) =~= tag_bytes(procedure));
    assert(after_tag(b) =~= args);
}

/// The call set is closed: bytes decode to a call only when they are the
/// encoding of a call to a declared procedure, so no other bytes are taken for
/// a call.
pub proof fn lemma_call_closed(b: Seq<u8>, count: u32)
    ensures
        parse_call(b, count) matches Some((p, args)) ==> p < count && b == call_bytes(p, args),
{
    if b.len() >= 4 {
        lemma_auto_spec_u32_to_from_le_bytes();
        assert(b.subrange(0, 4).len() == 4);
        assert(tag_bytes(tag_of(b)) == b.subrange(0, 4));
        assert(b =~= b.subrange(0, 4) + after_tag(b));
    }
}

proof fn lemma_text_round_trip(m: Seq<char>)
    requires
        encode_utf8(m).len() <= u64::MAX,
    ensures
        holds_text(text_bytes(m)),
        text_of(text_bytes(m)) == m,
{
    lemma_auto_spec_u64_to_from_le_bytes();
    broadcast use encode_utf8_valid_utf8, encode_utf8_decode_utf8;

    let n: int = encode_utf8(m).len() as int;
    let b = text_bytes(m);
    let prefix = vstd::bytes::spec_u64_to_le_bytes(n as u64);
    assert(prefix.len() == 8);
    assert(b.subrange(0, 8) =~= prefix);
    assert(crate::codec::announced_len(b) == n);
    assert(b.subrange(8, 8 + n) =~= encode_utf8(m));
}

/// An error value decodes to itself.
pub proof fn lemma_err_round_trip(e: ErrView)
    requires
        err_fits(e),
    ensures
        parse_err(err_bytes(e)) == Some(e),
{
    lemma_auto_spec_u32_to_from_le_bytes();
    let b = err_bytes(e);
    match e {
        ErrView::Serialize(m) => {
            lemma_text_round_trip(m);
            assert(b.subrange(0, 4) =~= tag_bytes(0));
            assert(after_tag(b) =~= text_bytes(m));
        },
        ErrView::Io(m) => {
            lemma_text_round_trip(m);
            assert(b.subrange(0, 4) =~= tag_bytes(1));
            assert(after_tag(b) =~= text_bytes(m));
        },
        ErrView::EnvVar(m) => {
            lemma_text_round_trip(m);
            assert(b.subrange(0, 4) =~= tag_bytes(2));
            assert(after_tag(b) =~= text_bytes(m));
        },
        ErrView::XdgRuntimeDirInvPerm(mode) => {
            assert(b.subrange(0, 4) =~= tag_bytes(3));
            assert(after_tag(b) =~= tag_bytes(mode));
            assert(after_tag(b).subrange(0, 4) =~= tag_bytes(mode));
        },
        ErrView::XdgRuntimeDirMissing => {
            assert(b.subrange(0, 4) =~= tag_bytes(4));
        },
        ErrView::AlreadyRunning => {
            assert(b.subrange(0, 4) =~= tag_bytes(5));
        },
    }
}

/// A reply decodes to the outcome it was made from.
pub proof fn lemma_reply_round_trip(r: Result<Seq<u8>, ErrView>)
    requires
        r matches Err(e) ==> err_fits(e),
    ensures
        parse_reply(reply_bytes(r)) == Some(r),
{
    lemma_auto_spec_u32_to_from_le_bytes();
    let b = reply_bytes(r);
    match r {
        Ok(payload) => {
            assert(b.subrange(0, 4) =~= tag_bytes(0));
            assert(after_tag(b) =~= payload);
        },
        Err(e) => {
            lemma_err_round_trip(e);
            assert(b.subrange(0, 4) =~= tag_bytes(1));
            assert(after_tag(b) =~= err_bytes(e));
        },
    }
}

/// A call made through the protocol returns what the procedure returns when
/// called directly: the server decodes the caller's request to the same
/// procedure and arguments, and the caller decodes the server's reply to the
/// procedure's outcome.
pub proof fn lemma_remote_call_matches_direct_call(
    procedure: u32,
    args: Seq<u8>,
    count: u32,
    procedures: spec_fn(u32, Seq<u8>) -> Result<Seq<u8>, ErrView>,
)
    requires
        procedure < count,
        procedures(procedure, args) matches Err(e) ==> err_fits(e),
    ensures
        served(call_bytes(procedure, args), count, procedures) matches Some(reply)
            && parse_reply(reply) == Some(procedures(procedure, args)),
{
    lemma_call_round_trip(procedure, args, count);
    lemma_reply_round_trip(procedures(procedure, args));
}

} // verus!
