//! Wire codec: a tagged binary format for [`Message`].
//!
//! One leading tag byte selects the variant, followed by the variant's
//! fields in order, each as a 4-byte big-endian length prefix and the raw
//! bytes; an argument list is a 4-byte count followed by its elements, each
//! length-prefixed.  Decoding enforces the 255-byte bound on `name` and
//! `exec_req_id` and rejects trailing bytes, so decoding an encoding gives
//! back exactly the message that was encoded.
use vstd::prelude::*;
use vstd::slice::{slice_subrange, slice_to_vec};
use crate::message::{Message, MessageView, NAME_MAX};

verus! {

/// Tag byte of each variant.
pub const TAG_NOP: u8 = 0x00;

pub const TAG_PEER_ID_REC: u8 = 0x01;

pub const TAG_WASM_EXEC_REQUEST: u8 = 0x02;

pub const TAG_WASM_EXEC_RESULT: u8 = 0x03;

/// The 4-byte big-endian encoding of `n`.
pub open spec fn enc_u32(n: u32) -> Seq<u8> {
    seq![
        (n / 0x1000000) as u8,
        ((n / 0x10000) % 0x100) as u8,
        ((n / 0x100) % 0x100) as u8,
        (n % 0x100) as u8,
    ]
}

/// A length-prefixed byte string.
pub open spec fn enc_blob(b: Seq<u8>) -> Seq<u8> {
    enc_u32(b.len() as u32) + b
}

/// The elements of `s` from index `i` on, each length-prefixed.
pub open spec fn enc_blob_list_from(s: Seq<Seq<u8>>, i: int) -> Seq<u8>
    decreases s.len() - i,
{
    if i < 0 || i >= s.len() {
        Seq::empty()
    } else {
        enc_blob(s[i]) + enc_blob_list_from(s, i + 1)
    }
}

/// Whether a byte string fits behind a 4-byte length prefix.
pub open spec fn blob_ok(b: Seq<u8>) -> bool {
    b.len() <= u32::MAX
}

pub open spec fn blobs_ok(s: Seq<Seq<u8>>) -> bool {
    &&& s.len() <= u32::MAX
    &&& forall|k: int| 0 <= k < s.len() ==> blob_ok(#[trigger] s[k])
}

/// Whether every field of `m` fits its wire framing.
pub open spec fn msg_encodable(m: MessageView) -> bool {
    match m {
        MessageView::NOP { payload } => blob_ok(payload),
        MessageView::PEER_ID_REC { pub_key, name, name_sig, description, description_sig } => {
            blob_ok(pub_key) && blob_ok(name) && blob_ok(name_sig) && blob_ok(description)
                && blob_ok(description_sig)
        },
        MessageView::WASM_EXEC_REQUEST {
            pub_key,
            wasm_binary,
            wasm_binary_sig,
            arguments,
            arguments_sig,
            exec_req_id,
            exec_req_id_sig,
        } => {
            blob_ok(pub_key) && blob_ok(wasm_binary) && blob_ok(wasm_binary_sig) && blobs_ok(
                arguments,
            ) && blob_ok(arguments_sig) && blob_ok(exec_req_id) && blob_ok(exec_req_id_sig)
        },
        MessageView::WASM_EXEC_RESULT {
            pub_key,
            wasm_stdout,
            wasm_stdout_sig,
            exec_req_id,
            exec_req_id_sig,
        } => {
            blob_ok(pub_key) && blob_ok(wasm_stdout) && blob_ok(wasm_stdout_sig) && blob_ok(
                exec_req_id,
            ) && blob_ok(exec_req_id_sig)
        },
    }
}

/// A message the wire format represents losslessly: in bounds and encodable.
pub open spec fn wire_wf(m: MessageView) -> bool {
    crate::message::msg_bounds(m) && msg_encodable(m)
}

/// The wire bytes of `m`.
pub open spec fn spec_encode(m: MessageView) -> Seq<u8> {
    match m {
        MessageView::NOP { payload } => seq![TAG_NOP] + enc_blob(payload),
        MessageView::PEER_ID_REC { pub_key, name, name_sig, description, description_sig } => {
            seq![TAG_PEER_ID_REC] + (enc_blob(pub_key) + (enc_blob(name) + (enc_blob(name_sig) + (
            enc_blob(description) + enc_blob(description_sig)))))
        },
        MessageView::WASM_EXEC_REQUEST {
            pub_key,
            wasm_binary,
            wasm_binary_sig,
            arguments,
            arguments_sig,
            exec_req_id,
            exec_req_id_sig,
        } => {
            seq![TAG_WASM_EXEC_REQUEST] + (enc_blob(pub_key) + (enc_blob(wasm_binary) + (enc_blob(
                wasm_binary_sig,
            ) + (enc_u32(arguments.len() as u32) + (enc_blob_list_from(arguments, 0) + (enc_blob(
                arguments_sig,
            ) + (enc_blob(exec_req_id) + enc_blob(exec_req_id_sig))))))))
        },
        MessageView::WASM_EXEC_RESULT {
            pub_key,
            wasm_stdout,
            wasm_stdout_sig,
            exec_req_id,
            exec_req_id_sig,
        } => {
            seq![TAG_WASM_EXEC_RESULT] + (enc_blob(pub_key) + (enc_blob(wasm_stdout) + (enc_blob(
                wasm_stdout_sig,
            ) + (enc_blob(exec_req_id) + enc_blob(exec_req_id_sig)))))
        },
    }
}

/// Reads a 4-byte big-endian integer from the front of `s`.
pub open spec fn dec_u32(s: Seq<u8>) -> Option<(u32, Seq<u8>)> {
    if s.len() < 4 {
        None
    } else {
        Some(
            (
                ((s[0] as int) * 0x1000000 + (s[1] as int) * 0x10000 + (s[2] as int) * 0x100 + (
                s[3] as int)) as u32,
                s.skip(4),
            ),
        )
    }
}

/// Reads one length-prefixed byte string from the front of `s`.
pub open spec fn dec_blob(s: Seq<u8>) -> Option<(Seq<u8>, Seq<u8>)> {
    match dec_u32(s) {
        Some((n, r)) => {
            if r.len() >= n {
                Some((r.take(n as int), r.skip(n as int)))
            } else {
                None
            }
        },
        None => None,
    }
}

/// Reads `n` length-prefixed byte strings from the front of `s`.
pub open spec fn dec_blob_list(s: Seq<u8>, n: nat) -> Option<(Seq<Seq<u8>>, Seq<u8>)>
    decreases n,
{
    if n == 0 {
        Some((Seq::empty(), s))
    } else {
        match dec_blob(s) {
            Some((b, r)) => {
                match dec_blob_list(r, (n - 1) as nat) {
                    Some((bs, r2)) => Some((seq![b] + bs, r2)),
                    None => None,
                }
            },
            None => None,
        }
    }
}

/// Decodes a `NOP` body.
pub open spec fn dec_nop(s: Seq<u8>) -> Option<MessageView> {
    match dec_blob(s) {
        Some((payload, r)) => {
            if r.len() == 0 {
                Some(MessageView::NOP { payload })
            } else {
                None
            }
        },
        None => None,
    }
}

/// Decodes a `PEER_ID_REC` body, rejecting an oversized `name`.
pub open spec fn dec_rec(s: Seq<u8>) -> Option<MessageView> {
    match dec_blob(s) {
        Some((pub_key, r)) => match dec_blob(r) {
            Some((name, r)) => match dec_blob(r) {
                Some((name_sig, r)) => match dec_blob(r) {
                    Some((description, r)) => match dec_blob(r) {
                        Some((description_sig, r)) => {
                            if r.len() == 0 && name.len() <= NAME_MAX {
                                Some(
                                    MessageView::PEER_ID_REC {
                                        pub_key,
                                        name,
                                        name_sig,
                                        description,
                                        description_sig,
                                    },
                                )
                            } else {
                                None
                            }
                        },
                        None => None,
                    },
                    None => None,
                },
                None => None,
            },
            None => None,
        },
        None => None,
    }
}

/// Decodes a `WASM_EXEC_REQUEST` body, rejecting an oversized `exec_req_id`.
pub open spec fn dec_req(s: Seq<u8>) -> Option<MessageView> {
    match dec_blob(s) {
        Some((pub_key, r)) => match dec_blob(r) {
            Some((wasm_binary, r)) => match dec_blob(r) {
                Some((wasm_binary_sig, r)) => match dec_u32(r) {
                    Some((count, r)) => match dec_blob_list(r, count as nat) {
                        Some((arguments, r)) => match dec_blob(r) {
                            Some((arguments_sig, r)) => match dec_blob(r) {
                                Some((exec_req_id, r)) => match dec_blob(r) {
                                    Some((exec_req_id_sig, r)) => {
                                        if r.len() == 0 && exec_req_id.len() <= NAME_MAX {
                                            Some(
                                                MessageView::WASM_EXEC_REQUEST {
                                                    pub_key,
                                                    wasm_binary,
                                                    wasm_binary_sig,
                                                    arguments,
                                                    arguments_sig,
                                                    exec_req_id,
                                                    exec_req_id_sig,
                                                },
                                            )
                                        } else {
                                            None
                                        }
                                    },
                                    None => None,
                                },
                                None => None,
                            },
                            None => None,
                        },
                        None => None,
                    },
                    None => None,
                },
                None => None,
            },
            None => None,
        },
        None => None,
    }
}

/// Decodes a `WASM_EXEC_RESULT` body, rejecting an oversized `exec_req_id`.
pub open spec fn dec_res(s: Seq<u8>) -> Option<MessageView> {
    match dec_blob(s) {
        Some((pub_key, r)) => match dec_blob(r) {
            Some((wasm_stdout, r)) => match dec_blob(r) {
                Some((wasm_stdout_sig, r)) => match dec_blob(r) {
                    Some((exec_req_id, r)) => match dec_blob(r) {
                        Some((exec_req_id_sig, r)) => {
                            if r.len() == 0 && exec_req_id.len() <= NAME_MAX {
                                Some(
                                    MessageView::WASM_EXEC_RESULT {
                                        pub_key,
                                        wasm_stdout,
                                        wasm_stdout_sig,
                                        exec_req_id,
                                        exec_req_id_sig,
                                    },
                                )
                            } else {
                                None
                            }
                        },
                        None => None,
                    },
                    None => None,
                },
                None => None,
            },
            None => None,
        },
        None => None,
    }
}

/// The message a byte string decodes to, if any: the whole string must be
/// consumed, and `name` / `exec_req_id` must be within bounds.
pub open spec fn spec_decode(s: Seq<u8>) -> Option<MessageView> {
    if s.len() == 0 {
        None
    } else {
        let body = s.skip(1);
        if s[0] == TAG_NOP {
            dec_nop(body)
        } else if s[0] == TAG_PEER_ID_REC {
            dec_rec(body)
        } else if s[0] == TAG_WASM_EXEC_REQUEST {
            dec_req(body)
        } else if s[0] == TAG_WASM_EXEC_RESULT {
            dec_res(body)
        } else {
            None
        }
    }
}

/// Appends the bytes of `b` to `out`.
fn write_bytes(out: &mut Vec<u8>, b: &[u8])
    ensures
        final(out)@ == old(out)@ + b@,
{
    let mut i: usize = 0;
    while i < b.len()
        invariant
            i <= b.len(),
            out@ == old(out)@ + b@.subrange(0, i as int),
        decreases b.len() - i,
    {
        out.push(b[i]);
        i = i + 1;
        proof {
            assert(b@.subrange(0, i as int) == b@.subrange(0, i - 1) + seq![b@[i - 1]]);
        }
    }
    proof {
        assert(b@.subrange(0, b@.len() as int) == b@);
    }
}

/// Appends the 4-byte big-endian encoding of `n` to `out`.
fn write_u32(out: &mut Vec<u8>, n: u32)
    ensures
        final(out)@ == old(out)@ + enc_u32(n),
{
    out.push((n / 0x1000000) as u8);
    out.push(((n / 0x10000) % 0x100) as u8);
    out.push(((n / 0x100) % 0x100) as u8);
    out.push((n % 0x100) as u8);
    proof {
        assert(out@ =~= old(out)@ + enc_u32(n));
    }
}

/// Appends the length-prefixed encoding of `b` to `out`.
fn write_blob(out: &mut Vec<u8>, b: &[u8])
    requires
        blob_ok(b@),
    ensures
        final(out)@ == old(out)@ + enc_blob(b@),
{
    write_u32(out, b.len() as u32);
    write_bytes(out, b);
}

/// Appends the encodings of the arguments from index `i` on to `out`.
fn write_blob_list_from(out: &mut Vec<u8>, args: &Vec<Vec<u8>>, i: usize)
    requires
        i <= args@.len(),
        blobs_ok(args.deep_view()),
    ensures
        final(out)@ == old(out)@ + enc_blob_list_from(args.deep_view(), i as int),
    decreases args@.len() - i,
{
    let ghost s = args.deep_view();
    if i < args.len() {
        proof {
            assert(s[i as int] == args@[i as int]@);
        }
        write_blob(out, args[i].as_slice());
        write_blob_list_from(out, args, i + 1);
    }
}

/// Encodes `msg` to its wire bytes.  Every field must fit its framing; the
/// builders and the decoder only produce messages that do.
#[verifier::rlimit(50)]
pub fn encode(msg: &Message) -> (r: Vec<u8>)
    requires
        msg_encodable(msg@),
    ensures
        r@ == spec_encode(msg@),
{
    let mut out: Vec<u8> = Vec::new();
    match msg {
        Message::NOP { payload } => {
            out.push(TAG_NOP);
            proof {
                assert(out@ =~= seq![TAG_NOP]);
            }
            write_blob(&mut out, payload.as_slice());
        },
        Message::PEER_ID_REC { pub_key, name, name_sig, description, description_sig } => {
            out.push(TAG_PEER_ID_REC);
            proof {
                assert(out@ =~= seq![TAG_PEER_ID_REC]);
            }
            write_blob(&mut out, pub_key.as_slice());
            write_blob(&mut out, name.as_slice());
            write_blob(&mut out, name_sig.as_slice());
            write_blob(&mut out, description.as_slice());
            write_blob(&mut out, description_sig.as_slice());
        },
        Message::WASM_EXEC_REQUEST {
            pub_key,
            wasm_binary,
            wasm_binary_sig,
            arguments,
            arguments_sig,
            exec_req_id,
            exec_req_id_sig,
        } => {
            out.push(TAG_WASM_EXEC_REQUEST);
            proof {
                assert(out@ =~= seq![TAG_WASM_EXEC_REQUEST]);
            }
            write_blob(&mut out, pub_key.as_slice());
            write_blob(&mut out, wasm_binary.as_slice());
            write_blob(&mut out, wasm_binary_sig.as_slice());
            proof {
                assert(arguments.deep_view().len() == arguments@.len());
            }
            write_u32(&mut out, arguments.len() as u32);
            write_blob_list_from(&mut out, arguments, 0);
            write_blob(&mut out, arguments_sig.as_slice());
            write_blob(&mut out, exec_req_id.as_slice());
            write_blob(&mut out, exec_req_id_sig.as_slice());
            proof {
                assert(out@ =~= spec_encode(msg@));
            }
        },
        Message::WASM_EXEC_RESULT {
            pub_key,
            wasm_stdout,
            wasm_stdout_sig,
            exec_req_id,
            exec_req_id_sig,
        } => {
            out.push(TAG_WASM_EXEC_RESULT);
            proof {
                assert(out@ =~= seq![TAG_WASM_EXEC_RESULT]);
            }
            write_blob(&mut out, pub_key.as_slice());
            write_blob(&mut out, wasm_stdout.as_slice());
            write_blob(&mut out, wasm_stdout_sig.as_slice());
            write_blob(&mut out, exec_req_id.as_slice());
            write_blob(&mut out, exec_req_id_sig.as_slice());
        },
    }
    out
}

/// Reads a 4-byte big-endian integer at `pos`, agreeing with [`dec_u32`].
fn read_u32(bytes: &[u8], pos: usize) -> (r: Option<(u32, usize)>)
    requires
        pos <= bytes@.len(),
    ensures
        match r {
            Some(v) => {
                &&& dec_u32(bytes@.skip(pos as int)) == Some((v.0, bytes@.skip(v.1 as int)))
                &&& pos < v.1 <= bytes@.len()
            },
            None => dec_u32(bytes@.skip(pos as int)) is None,
        },
{
    let ghost s = bytes@.skip(pos as int);
    if bytes.len() - pos >= 4 {
        let b0 = bytes[pos];
        let b1 = bytes[pos + 1];
        let b2 = bytes[pos + 2];
        let b3 = bytes[pos + 3];
        let n = (b0 as u32) * 0x1000000 + (b1 as u32) * 0x10000 + (b2 as u32) * 0x100 + (b3 as u32);
        proof {
            assert(s[0] == b0 && s[1] == b1 && s[2] == b2 && s[3] == b3);
            assert(s.skip(4) =~= bytes@.skip(pos as int + 4));
        }
        Some((n, pos + 4))
    } else {
        None
    }
}

/// Reads one length-prefixed byte string at `pos`, agreeing with
/// [`dec_blob`].
fn read_blob(bytes: &[u8], pos: usize) -> (r: Option<(Vec<u8>, usize)>)
    requires
        pos <= bytes@.len(),
    ensures
        match r {
            Some(v) => {
                &&& dec_blob(bytes@.skip(pos as int)) == Some((v.0@, bytes@.skip(v.1 as int)))
                &&& pos < v.1 <= bytes@.len()
            },
            None => dec_blob(bytes@.skip(pos as int)) is None,
        },
{
    let ghost s = bytes@.skip(pos as int);
    match read_u32(bytes, pos) {
        Some((n, p)) => {
            let ghost r1 = bytes@.skip(p as int);
            if bytes.len() - p >= n as usize {
                let end = p + n as usize;
                let blob = slice_to_vec(slice_subrange(bytes, p, end));
                proof {
                    assert(r1.take(n as int) =~= bytes@.subrange(p as int, end as int));
                    assert(r1.skip(n as int) =~= bytes@.skip(end as int));
                }
                Some((blob, end))
            } else {
                proof {
                    assert(r1.len() < n);
                }
                None
            }
        },
        None => None,
    }
}

/// Reads `n` length-prefixed byte strings at `pos`, agreeing with
/// [`dec_blob_list`].
fn read_blob_list(bytes: &[u8], pos: usize, n: u32) -> (r: Option<(Vec<Vec<u8>>, usize)>)
    requires
        pos <= bytes@.len(),
    ensures
        match r {
            Some(v) => {
                &&& dec_blob_list(bytes@.skip(pos as int), n as nat) == Some(
                    (v.0.deep_view(), bytes@.skip(v.1 as int)),
                )
                &&& pos <= v.1 <= bytes@.len()
            },
            None => dec_blob_list(bytes@.skip(pos as int), n as nat) is None,
        },
    decreases n,
{
    if n == 0 {
        let vs: Vec<Vec<u8>> = Vec::new();
        proof {
            assert(vs.deep_view() =~= Seq::<Seq<u8>>::empty());
        }
        Some((vs, pos))
    } else {
        match read_blob(bytes, pos) {
            Some((b, p)) => {
                match read_blob_list(bytes, p, n - 1) {
                    Some((tail, p2)) => {
                        let ghost tail_deep = tail.deep_view();
                        let ghost b_view = b@;
                        let mut vs = tail;
                        vs.insert(0, b);
                        proof {
                            assert forall|k: int| 0 <= k < vs.deep_view().len() implies
                                vs.deep_view()[k] == (seq![b_view] + tail_deep)[k] by {
                                if k == 0 {
                                    assert(vs@[0] == b);
                                } else {
                                    assert(vs@[k] == tail@[k - 1]);
                                }
                            }
                            assert(vs.deep_view() =~= seq![b_view] + tail_deep);
                        }
                        Some((vs, p2))
                    },
                    None => None,
                }
            },
            None => None,
        }
    }
}

/// Decodes a `PEER_ID_REC` body starting at `pos`.
fn decode_rec(bytes: &[u8], pos: usize) -> (r: Option<Message>)
    requires
        pos <= bytes@.len(),
    ensures
        match r {
            Some(m) => dec_rec(bytes@.skip(pos as int)) == Some(m@),
            None => dec_rec(bytes@.skip(pos as int)) is None,
        },
{
    let (pub_key, pos) = match read_blob(bytes, pos) {
        Some(v) => v,
        None => { return None },
    };
    let (name, pos) = match read_blob(bytes, pos) {
        Some(v) => v,
        None => { return None },
    };
    let (name_sig, pos) = match read_blob(bytes, pos) {
        Some(v) => v,
        None => { return None },
    };
    let (description, pos) = match read_blob(bytes, pos) {
        Some(v) => v,
        None => { return None },
    };
    let (description_sig, pos) = match read_blob(bytes, pos) {
        Some(v) => v,
        None => { return None },
    };
    if pos == bytes.len() && name.len() <= NAME_MAX {
        Some(Message::PEER_ID_REC { pub_key, name, name_sig, description, description_sig })
    } else {
        None
    }
}

/// Decodes a `WASM_EXEC_REQUEST` body starting at `pos`.
fn decode_req(bytes: &[u8], pos: usize) -> (r: Option<Message>)
    requires
        pos <= bytes@.len(),
    ensures
        match r {
            Some(m) => dec_req(bytes@.skip(pos as int)) == Some(m@),
            None => dec_req(bytes@.skip(pos as int)) is None,
        },
{
    let (pub_key, pos) = match read_blob(bytes, pos) {
        Some(v) => v,
        None => { return None },
    };
    let (wasm_binary, pos) = match read_blob(bytes, pos) {
        Some(v) => v,
        None => { return None },
    };
    let (wasm_binary_sig, pos) = match read_blob(bytes, pos) {
        Some(v) => v,
        None => { return None },
    };
    let (count, pos) = match read_u32(bytes, pos) {
        Some(v) => v,
        None => { return None },
    };
    let (arguments, pos) = match read_blob_list(bytes, pos, count) {
        Some(v) => v,
        None => { return None },
    };
    let (arguments_sig, pos) = match read_blob(bytes, pos) {
        Some(v) => v,
        None => { return None },
    };
    let (exec_req_id, pos) = match read_blob(bytes, pos) {
        Some(v) => v,
        None => { return None },
    };
    let (exec_req_id_sig, pos) = match read_blob(bytes, pos) {
        Some(v) => v,
        None => { return None },
    };
    if pos == bytes.len() && exec_req_id.len() <= NAME_MAX {
        Some(
            Message::WASM_EXEC_REQUEST {
                pub_key,
                wasm_binary,
                wasm_binary_sig,
                arguments,
                arguments_sig,
                exec_req_id,
                exec_req_id_sig,
            },
        )
    } else {
        None
    }
}

/// Decodes a `WASM_EXEC_RESULT` body starting at `pos`.
fn decode_res(bytes: &[u8], pos: usize) -> (r: Option<Message>)
    requires
        pos <= bytes@.len(),
    ensures
        match r {
            Some(m) => dec_res(bytes@.skip(pos as int)) == Some(m@),
            None => dec_res(bytes@.skip(pos as int)) is None,
        },
{
    let (pub_key, pos) = match read_blob(bytes, pos) {
        Some(v) => v,
        None => { return None },
    };
    let (wasm_stdout, pos) = match read_blob(bytes, pos) {
        Some(v) => v,
        None => { return None },
    };
    let (wasm_stdout_sig, pos) = match read_blob(bytes, pos) {
        Some(v) => v,
        None => { return None },
    };
    let (exec_req_id, pos) = match read_blob(bytes, pos) {
        Some(v) => v,
        None => { return None },
    };
    let (exec_req_id_sig, pos) = match read_blob(bytes, pos) {
        Some(v) => v,
        None => { return None },
    };
    if pos == bytes.len() && exec_req_id.len() <= NAME_MAX {
        Some(
            Message::WASM_EXEC_RESULT {
                pub_key,
                wasm_stdout,
                wasm_stdout_sig,
                exec_req_id,
                exec_req_id_sig,
            },
        )
    } else {
        None
    }
}

/// Decodes wire bytes back into a message.  A result is always within the
/// structural bounds: an oversized `name` or `exec_req_id`, an unknown tag,
/// a truncated field or trailing bytes all yield `None`.
pub fn decode(bytes: &[u8]) -> (r: Option<Message>)
    ensures
        match r {
            Some(m) => spec_decode(bytes@) == Some(m@) && crate::message::msg_bounds(m@),
            None => spec_decode(bytes@) is None,
        },
{
    if bytes.len() == 0 {
        return None;
    }
    let tag = bytes[0];
    let r = if tag == TAG_NOP {
        match read_blob(bytes, 1) {
            Some((payload, pos)) => {
                if pos == bytes.len() {
                    Some(Message::NOP { payload })
                } else {
                    None
                }
            },
            None => None,
        }
    } else if tag == TAG_PEER_ID_REC {
        decode_rec(bytes, 1)
    } else if tag == TAG_WASM_EXEC_REQUEST {
        decode_req(bytes, 1)
    } else if tag == TAG_WASM_EXEC_RESULT {
        decode_res(bytes, 1)
    } else {
        None
    };
    r
}

/// The four big-endian bytes of `n` recombine to `n`.
proof fn lemma_u32_bytes(n: u32)
    ensures
        ((n / 0x1000000) as u8 as int) * 0x1000000 + (((n / 0x10000) % 0x100) as u8 as int)
            * 0x10000 + (((n / 0x100) % 0x100) as u8 as int) * 0x100 + ((n % 0x100) as u8 as int)
            == n,
{
    let a = n as int;
    vstd::arithmetic::div_mod::lemma_breakdown(a, 0x10000, 0x100);
    vstd::arithmetic::div_mod::lemma_breakdown(a, 0x100, 0x100);
    vstd::arithmetic::div_mod::lemma_fundamental_div_mod(a, 0x1000000);
    assert(a / 0x1000000 < 0x100) by (nonlinear_arith)
        requires
            a <= 0xFFFFFFFF && a >= 0,
    ;
    assert(a % 0x1000000 == 0x10000 * ((a / 0x10000) % 0x100) + a % 0x10000);
    assert(a % 0x10000 == 0x100 * ((a / 0x100) % 0x100) + a % 0x100);
}

/// Decoding an encoded integer gives the integer back and leaves the rest.
proof fn lemma_dec_enc_u32(n: u32, rest: Seq<u8>)
    ensures
        dec_u32(enc_u32(n) + rest) == Some((n, rest)),
{
    let s = enc_u32(n) + rest;
    assert(s[0] == (n / 0x1000000) as u8);
    assert(s[1] == ((n / 0x10000) % 0x100) as u8);
    assert(s[2] == ((n / 0x100) % 0x100) as u8);
    assert(s[3] == (n % 0x100) as u8);
    lemma_u32_bytes(n);
    assert(s.skip(4) =~= rest);
}

/// Decoding an encoded byte string gives the string back and leaves the
/// rest.
proof fn lemma_dec_enc_blob(b: Seq<u8>, rest: Seq<u8>)
    requires
        blob_ok(b),
    ensures
        dec_blob(enc_blob(b) + rest) == Some((b, rest)),
{
    let n = b.len() as u32;
    assert(enc_blob(b) + rest =~= enc_u32(n) + (b + rest));
    lemma_dec_enc_u32(n, b + rest);
    assert((b + rest).take(n as int) =~= b);
    assert((b + rest).skip(n as int) =~= rest);
}

/// Decoding an encoded argument-list tail gives the remaining elements
/// back and leaves the rest.
proof fn lemma_dec_enc_blob_list(s: Seq<Seq<u8>>, i: int, rest: Seq<u8>)
    requires
        0 <= i <= s.len(),
        blobs_ok(s),
    ensures
        dec_blob_list(enc_blob_list_from(s, i) + rest, (s.len() - i) as nat) == Some(
            (s.skip(i), rest),
        ),
    decreases s.len() - i,
{
    if i == s.len() {
        assert(enc_blob_list_from(s, i) + rest =~= rest);
        assert(s.skip(i) =~= Seq::<Seq<u8>>::empty());
    } else {
        let tail = enc_blob_list_from(s, i + 1) + rest;
        assert(enc_blob_list_from(s, i) + rest =~= enc_blob(s[i]) + tail);
        lemma_dec_enc_blob(s[i], tail);
        lemma_dec_enc_blob_list(s, i + 1, rest);
        assert(seq![s[i]] + s.skip(i + 1) =~= s.skip(i));
    }
}

/// Encoding a well-formed message and decoding the bytes gives the message
/// back unchanged: the wire format is lossless and the decoder accepts
/// exactly what the encoder emits.
proof fn lemma_ed_nop(payload: Seq<u8>)
    requires
        blob_ok(payload),
    ensures
        spec_decode(spec_encode(MessageView::NOP { payload })) == Some(
            MessageView::NOP { payload },
        ),
{
    let s = spec_encode(MessageView::NOP { payload });
    let empty = Seq::<u8>::empty();
    assert(s[0] == TAG_NOP);
    assert(s.skip(1) =~= enc_blob(payload) + empty);
    lemma_dec_enc_blob(payload, empty);
}

proof fn lemma_ed_rec(
    pub_key: Seq<u8>,
    name: Seq<u8>,
    name_sig: Seq<u8>,
    description: Seq<u8>,
    description_sig: Seq<u8>,
)
    requires
        blob_ok(pub_key),
        blob_ok(name),
        blob_ok(name_sig),
        blob_ok(description),
        blob_ok(description_sig),
        name.len() <= NAME_MAX,
    ensures
        spec_decode(
            spec_encode(
                MessageView::PEER_ID_REC { pub_key, name, name_sig, description, description_sig },
            ),
        ) == Some(
            MessageView::PEER_ID_REC { pub_key, name, name_sig, description, description_sig },
        ),
{
    let m = MessageView::PEER_ID_REC { pub_key, name, name_sig, description, description_sig };
    let s = spec_encode(m);
    let empty = Seq::<u8>::empty();
    let t3 = enc_blob(description) + enc_blob(description_sig);
    let t2 = enc_blob(name_sig) + t3;
    let t1 = enc_blob(name) + t2;
    assert(s[0] == TAG_PEER_ID_REC);
    assert(s.skip(1) =~= enc_blob(pub_key) + t1);
    lemma_dec_enc_blob(pub_key, t1);
    lemma_dec_enc_blob(name, t2);
    lemma_dec_enc_blob(name_sig, t3);
    lemma_dec_enc_blob(description, enc_blob(description_sig));
    lemma_dec_enc_blob(description_sig, empty);
    assert(enc_blob(description_sig) + empty =~= enc_blob(description_sig));
}

#[verifier::rlimit(50)]
proof fn lemma_ed_req(
    pub_key: Seq<u8>,
    wasm_binary: Seq<u8>,
    wasm_binary_sig: Seq<u8>,
    arguments: Seq<Seq<u8>>,
    arguments_sig: Seq<u8>,
    exec_req_id: Seq<u8>,
    exec_req_id_sig: Seq<u8>,
)
    requires
        blob_ok(pub_key),
        blob_ok(wasm_binary),
        blob_ok(wasm_binary_sig),
        blobs_ok(arguments),
        blob_ok(arguments_sig),
        blob_ok(exec_req_id),
        blob_ok(exec_req_id_sig),
        exec_req_id.len() <= NAME_MAX,
    ensures
        spec_decode(
            spec_encode(
                MessageView::WASM_EXEC_REQUEST {
                    pub_key,
                    wasm_binary,
                    wasm_binary_sig,
                    arguments,
                    arguments_sig,
                    exec_req_id,
                    exec_req_id_sig,
                },
            ),
        ) == Some(
            MessageView::WASM_EXEC_REQUEST {
                pub_key,
                wasm_binary,
                wasm_binary_sig,
                arguments,
                arguments_sig,
                exec_req_id,
                exec_req_id_sig,
            },
        ),
{
    let m = MessageView::WASM_EXEC_REQUEST {
        pub_key,
        wasm_binary,
        wasm_binary_sig,
        arguments,
        arguments_sig,
        exec_req_id,
        exec_req_id_sig,
    };
    let s = spec_encode(m);
    let empty = Seq::<u8>::empty();
    let count = arguments.len() as u32;
    let t5 = enc_blob(exec_req_id) + enc_blob(exec_req_id_sig);
    let t4 = enc_blob(arguments_sig) + t5;
    let t3b = enc_blob_list_from(arguments, 0) + t4;
    let t3 = enc_u32(count) + t3b;
    let t2 = enc_blob(wasm_binary_sig) + t3;
    let t1 = enc_blob(wasm_binary) + t2;
    assert(s[0] == TAG_WASM_EXEC_REQUEST);
    assert(s.skip(1) =~= enc_blob(pub_key) + t1);
    lemma_dec_enc_blob(pub_key, t1);
    lemma_dec_enc_blob(wasm_binary, t2);
    lemma_dec_enc_blob(wasm_binary_sig, t3);
    lemma_dec_enc_u32(count, t3b);
    lemma_dec_enc_blob_list(arguments, 0, t4);
    assert(arguments.skip(0) =~= arguments);
    lemma_dec_enc_blob(arguments_sig, t5);
    lemma_dec_enc_blob(exec_req_id, enc_blob(exec_req_id_sig));
    lemma_dec_enc_blob(exec_req_id_sig, empty);
    assert(enc_blob(exec_req_id_sig) + empty =~= enc_blob(exec_req_id_sig));
}

proof fn lemma_ed_res(
    pub_key: Seq<u8>,
    wasm_stdout: Seq<u8>,
    wasm_stdout_sig: Seq<u8>,
    exec_req_id: Seq<u8>,
    exec_req_id_sig: Seq<u8>,
)
    requires
        blob_ok(pub_key),
        blob_ok(wasm_stdout),
        blob_ok(wasm_stdout_sig),
        blob_ok(exec_req_id),
        blob_ok(exec_req_id_sig),
        exec_req_id.len() <= NAME_MAX,
    ensures
        spec_decode(
            spec_encode(
                MessageView::WASM_EXEC_RESULT {
                    pub_key,
                    wasm_stdout,
                    wasm_stdout_sig,
                    exec_req_id,
                    exec_req_id_sig,
                },
            ),
        ) == Some(
            MessageView::WASM_EXEC_RESULT {
                pub_key,
                wasm_stdout,
                wasm_stdout_sig,
                exec_req_id,
                exec_req_id_sig,
            },
        ),
{
    let m = MessageView::WASM_EXEC_RESULT {
        pub_key,
        wasm_stdout,
        wasm_stdout_sig,
        exec_req_id,
        exec_req_id_sig,
    };
    let s = spec_encode(m);
    let empty = Seq::<u8>::empty();
    let t3 = enc_blob(exec_req_id) + enc_blob(exec_req_id_sig);
    let t2 = enc_blob(wasm_stdout_sig) + t3;
    let t1 = enc_blob(wasm_stdout) + t2;
    assert(s[0] == TAG_WASM_EXEC_RESULT);
    assert(s.skip(1) =~= enc_blob(pub_key) + t1);
    lemma_dec_enc_blob(pub_key, t1);
    lemma_dec_enc_blob(wasm_stdout, t2);
    lemma_dec_enc_blob(wasm_stdout_sig, t3);
    lemma_dec_enc_blob(exec_req_id, enc_blob(exec_req_id_sig));
    lemma_dec_enc_blob(exec_req_id_sig, empty);
    assert(enc_blob(exec_req_id_sig) + empty =~= enc_blob(exec_req_id_sig));
}

/// Encoding a well-formed message and decoding the bytes gives the message
/// back unchanged: the wire format is lossless and the decoder accepts
/// exactly what the encoder emits.
pub proof fn lemma_encode_decode(m: MessageView)
    requires
        wire_wf(m),
    ensures
        spec_decode(spec_encode(m)) == Some(m),
{
    match m {
        MessageView::NOP { payload } => lemma_ed_nop(payload),
        MessageView::PEER_ID_REC { pub_key, name, name_sig, description, description_sig } => {
            lemma_ed_rec(pub_key, name, name_sig, description, description_sig);
        },
        MessageView::WASM_EXEC_REQUEST {
            pub_key,
            wasm_binary,
            wasm_binary_sig,
            arguments,
            arguments_sig,
            exec_req_id,
            exec_req_id_sig,
        } => {
            lemma_ed_req(
                pub_key,
                wasm_binary,
                wasm_binary_sig,
                arguments,
                arguments_sig,
                exec_req_id,
                exec_req_id_sig,
            );
        },
        MessageView::WASM_EXEC_RESULT {
            pub_key,
            wasm_stdout,
            wasm_stdout_sig,
            exec_req_id,
            exec_req_id_sig,
        } => {
            lemma_ed_res(pub_key, wasm_stdout, wasm_stdout_sig, exec_req_id, exec_req_id_sig);
        },
    }
}

/// Round trip preserves validity: decoding an encoding gives the very
/// message back, so `msg_valid` holds of the one iff it holds of the other.
pub proof fn lemma_round_trip_preserves_validity(m: MessageView)
    requires
        wire_wf(m),
    ensures
        spec_decode(spec_encode(m)) matches Some(m2) && (crate::message::msg_valid(m2)
            <==> crate::message::msg_valid(m)),
{
    lemma_encode_decode(m);
}

} // verus!
