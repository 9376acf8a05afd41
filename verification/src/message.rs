//! Message model: the closed set of typed, signed protocol messages.
//!
//! Every signable field carries exactly one detached signature computed over
//! its own byte representation; an argument list is signed over the
//! concatenation of its elements.  Construction and verification are pure
//! functions of the message value.
use vstd::prelude::*;
use crate::sig::{sig_valid, Identity};
pub use crate::sig::{check_sig, sign};
use crate::config::Config;

verus! {

/// Longest allowed `name` and `exec_req_id`, in bytes.
pub const NAME_MAX: usize = 255;

/// A protocol message.  `NOP` carries no identity; the other variants embed
/// the sender's serialized public key and one signature per signed field.
#[allow(non_camel_case_types)]
pub enum Message {
    NOP {
        payload: Vec<u8>,
    },
    PEER_ID_REC {
        pub_key: Vec<u8>,
        name: Vec<u8>,
        name_sig: Vec<u8>,
        description: Vec<u8>,
        description_sig: Vec<u8>,
    },
    WASM_EXEC_REQUEST {
        pub_key: Vec<u8>,
        wasm_binary: Vec<u8>,
        wasm_binary_sig: Vec<u8>,
        arguments: Vec<Vec<u8>>,
        arguments_sig: Vec<u8>,
        exec_req_id: Vec<u8>,
        exec_req_id_sig: Vec<u8>,
    },
    WASM_EXEC_RESULT {
        pub_key: Vec<u8>,
        wasm_stdout: Vec<u8>,
        wasm_stdout_sig: Vec<u8>,
        exec_req_id: Vec<u8>,
        exec_req_id_sig: Vec<u8>,
    },
}

/// The mathematical model of a message: the same shape over byte sequences.
#[allow(non_camel_case_types)]
pub enum MessageView {
    NOP {
        payload: Seq<u8>,
    },
    PEER_ID_REC {
        pub_key: Seq<u8>,
        name: Seq<u8>,
        name_sig: Seq<u8>,
        description: Seq<u8>,
        description_sig: Seq<u8>,
    },
    WASM_EXEC_REQUEST {
        pub_key: Seq<u8>,
        wasm_binary: Seq<u8>,
        wasm_binary_sig: Seq<u8>,
        arguments: Seq<Seq<u8>>,
        arguments_sig: Seq<u8>,
        exec_req_id: Seq<u8>,
        exec_req_id_sig: Seq<u8>,
    },
    WASM_EXEC_RESULT {
        pub_key: Seq<u8>,
        wasm_stdout: Seq<u8>,
        wasm_stdout_sig: Seq<u8>,
        exec_req_id: Seq<u8>,
        exec_req_id_sig: Seq<u8>,
    },
}

impl View for Message {
    type V = MessageView;

    open spec fn view(&self) -> MessageView {
        match self {
            Message::NOP { payload } => MessageView::NOP { payload: payload@ },
            Message::PEER_ID_REC { pub_key, name, name_sig, description, description_sig } => {
                MessageView::PEER_ID_REC {
                    pub_key: pub_key@,
                    name: name@,
                    name_sig: name_sig@,
                    description: description@,
                    description_sig: description_sig@,
                }
            },
            Message::WASM_EXEC_REQUEST {
                pub_key,
                wasm_binary,
                wasm_binary_sig,
                arguments,
                arguments_sig,
                exec_req_id,
                exec_req_id_sig,
            } => {
                MessageView::WASM_EXEC_REQUEST {
                    pub_key: pub_key@,
                    wasm_binary: wasm_binary@,
                    wasm_binary_sig: wasm_binary_sig@,
                    arguments: arguments.deep_view(),
                    arguments_sig: arguments_sig@,
                    exec_req_id: exec_req_id@,
                    exec_req_id_sig: exec_req_id_sig@,
                }
            },
            Message::WASM_EXEC_RESULT {
                pub_key,
                wasm_stdout,
                wasm_stdout_sig,
                exec_req_id,
                exec_req_id_sig,
            } => {
                MessageView::WASM_EXEC_RESULT {
                    pub_key: pub_key@,
                    wasm_stdout: wasm_stdout@,
                    wasm_stdout_sig: wasm_stdout_sig@,
                    exec_req_id: exec_req_id@,
                    exec_req_id_sig: exec_req_id_sig@,
                }
            },
        }
    }
}

/// The concatenation of the first `i` elements of `s`.
pub open spec fn concat_prefix(s: Seq<Seq<u8>>, i: int) -> Seq<u8>
    decreases i,
{
    if i <= 0 {
        Seq::empty()
    } else {
        concat_prefix(s, i - 1) + s[i - 1]
    }
}

/// The concatenation of all elements of `s`: the byte representation over
/// which an argument list is signed.
pub open spec fn concat_args(s: Seq<Seq<u8>>) -> Seq<u8> {
    concat_prefix(s, s.len() as int)
}

/// The structural bounds a message must meet: `name` and `exec_req_id` are
/// at most [`NAME_MAX`] bytes.
pub open spec fn msg_bounds(m: MessageView) -> bool {
    match m {
        MessageView::NOP { .. } => true,
        MessageView::PEER_ID_REC { name, .. } => name.len() <= NAME_MAX,
        MessageView::WASM_EXEC_REQUEST { exec_req_id, .. } => exec_req_id.len() <= NAME_MAX,
        MessageView::WASM_EXEC_RESULT { exec_req_id, .. } => exec_req_id.len() <= NAME_MAX,
    }
}

/// Whether every signed field of `m` carries a valid signature under the
/// embedded public key.  `NOP` has no signed fields.
pub open spec fn msg_sigs_valid(m: MessageView) -> bool {
    match m {
        MessageView::NOP { .. } => true,
        MessageView::PEER_ID_REC { pub_key, name, name_sig, description, description_sig } => {
            sig_valid(pub_key, name, name_sig) && sig_valid(pub_key, description, description_sig)
        },
        MessageView::WASM_EXEC_REQUEST {
            pub_key,
            wasm_binary,
            wasm_binary_sig,
            arguments,
            arguments_sig,
            exec_req_id,
            exec_req_id_sig,
        } => {
            sig_valid(pub_key, wasm_binary, wasm_binary_sig)
                && sig_valid(pub_key, concat_args(arguments), arguments_sig)
                && sig_valid(pub_key, exec_req_id, exec_req_id_sig)
        },
        MessageView::WASM_EXEC_RESULT {
            pub_key,
            wasm_stdout,
            wasm_stdout_sig,
            exec_req_id,
            exec_req_id_sig,
        } => {
            sig_valid(pub_key, wasm_stdout, wasm_stdout_sig)
                && sig_valid(pub_key, exec_req_id, exec_req_id_sig)
        },
    }
}

/// A message is actionable only if it is structurally in bounds and every
/// signed field checks.
pub open spec fn msg_valid(m: MessageView) -> bool {
    msg_bounds(m) && msg_sigs_valid(m)
}

/// Concatenates the argument byte strings, the payload an argument list's
/// signature is computed over.
pub fn concat_arguments(args: &Vec<Vec<u8>>) -> (r: Vec<u8>)
    ensures
        r@ == concat_args(args.deep_view()),
{
    let ghost s = args.deep_view();
    let mut out: Vec<u8> = Vec::new();
    let mut i: usize = 0;
    while i < args.len()
        invariant
            i <= args.len(),
            s == args.deep_view(),
            s.len() == args.len(),
            out@ == concat_prefix(s, i as int),
        decreases args.len() - i,
    {
        let arg = &args[i];
        assert(arg@ == s[i as int]);
        let mut j: usize = 0;
        while j < arg.len()
            invariant
                j <= arg.len(),
                out@ == concat_prefix(s, i as int) + arg@.subrange(0, j as int),
            decreases arg.len() - j,
        {
            out.push(arg[j]);
            j = j + 1;
            assert(arg@.subrange(0, j as int) == arg@.subrange(0, j - 1) + seq![arg@[j - 1]]);
        }
        assert(arg@.subrange(0, arg@.len() as int) == arg@);
        i = i + 1;
    }
    out
}

/// Checks one signed field: a helper over the embedded public key.
fn field_checks(pub_key: &Vec<u8>, field: &Vec<u8>, field_sig: &Vec<u8>) -> (r: bool)
    ensures
        r == sig_valid(pub_key@, field@, field_sig@),
{
    check_sig(pub_key.as_slice(), field.as_slice(), field_sig.as_slice())
}

/// Verifies a message: true iff it is in bounds and **every** signed field's
/// signature checks under the embedded public key.  An oversized `name` or
/// `exec_req_id` is a verification failure, not a separate error.
pub fn verify_message(msg: &Message) -> (r: bool)
    ensures
        r == msg_valid(msg@),
{
    match msg {
        Message::NOP { .. } => true,
        Message::PEER_ID_REC { pub_key, name, name_sig, description, description_sig } => {
            name.len() <= NAME_MAX
                && field_checks(pub_key, name, name_sig)
                && field_checks(pub_key, description, description_sig)
        },
        Message::WASM_EXEC_REQUEST {
            pub_key,
            wasm_binary,
            wasm_binary_sig,
            arguments,
            arguments_sig,
            exec_req_id,
            exec_req_id_sig,
        } => {
            let joined = concat_arguments(arguments);
            exec_req_id.len() <= NAME_MAX
                && field_checks(pub_key, wasm_binary, wasm_binary_sig)
                && field_checks(pub_key, &joined, arguments_sig)
                && field_checks(pub_key, exec_req_id, exec_req_id_sig)
        },
        Message::WASM_EXEC_RESULT {
            pub_key,
            wasm_stdout,
            wasm_stdout_sig,
            exec_req_id,
            exec_req_id_sig,
        } => {
            exec_req_id.len() <= NAME_MAX
                && field_checks(pub_key, wasm_stdout, wasm_stdout_sig)
                && field_checks(pub_key, exec_req_id, exec_req_id_sig)
        },
    }
}

/// Builds a `PEER_ID_REC` broadcasting the node's identity: `name` and
/// `description` are signed independently with the config's identity key.
pub fn build_peer_id_record(c: &Config) -> (r: Message)
    ensures
        r@ matches MessageView::PEER_ID_REC {
            pub_key,
            name,
            name_sig,
            description,
            description_sig,
        } && pub_key == c.identity_key@
            && name == c.name@
            && description == c.description@
            && (name_sig.len() == 0 || sig_valid(pub_key, name, name_sig))
            && (description_sig.len() == 0 || sig_valid(pub_key, description, description_sig))
            && (c.identity_key.signing_capable() ==> name_sig.len() > 0
            && description_sig.len() > 0),
{
    Message::PEER_ID_REC {
        pub_key: c.identity_key.public_key().clone(),
        name: c.name.clone(),
        name_sig: sign(&c.identity_key, c.name.as_slice()),
        description: c.description.clone(),
        description_sig: sign(&c.identity_key, c.description.as_slice()),
    }
}

/// Builds a `WASM_EXEC_REQUEST`: the module bytes, the concatenation of the
/// arguments, and the correlation token are each signed independently.
pub fn build_wasm_exec_req(
    c: &Config,
    wasm_bytes: &[u8],
    arguments: Vec<Vec<u8>>,
    exec_req_id: &[u8],
) -> (r: Message)
    ensures
        r@ matches MessageView::WASM_EXEC_REQUEST {
            pub_key,
            wasm_binary,
            wasm_binary_sig,
            arguments: args,
            arguments_sig,
            exec_req_id: id,
            exec_req_id_sig,
        } && pub_key == c.identity_key@
            && wasm_binary == wasm_bytes@
            && args == arguments.deep_view()
            && id == exec_req_id@
            && (wasm_binary_sig.len() == 0 || sig_valid(pub_key, wasm_binary, wasm_binary_sig))
            && (arguments_sig.len() == 0 || sig_valid(pub_key, concat_args(args), arguments_sig))
            && (exec_req_id_sig.len() == 0 || sig_valid(pub_key, id, exec_req_id_sig))
            && (c.identity_key.signing_capable() ==> wasm_binary_sig.len() > 0
            && arguments_sig.len() > 0 && exec_req_id_sig.len() > 0),
{
    let joined = concat_arguments(&arguments);
    Message::WASM_EXEC_REQUEST {
        pub_key: c.identity_key.public_key().clone(),
        wasm_binary: vstd::slice::slice_to_vec(wasm_bytes),
        wasm_binary_sig: sign(&c.identity_key, wasm_bytes),
        arguments,
        arguments_sig: sign(&c.identity_key, joined.as_slice()),
        exec_req_id: vstd::slice::slice_to_vec(exec_req_id),
        exec_req_id_sig: sign(&c.identity_key, exec_req_id),
    }
}

/// Builds a `WASM_EXEC_RESULT`: the captured output is signed, and the
/// request's correlation token is echoed and re-signed under the executor's
/// own identity, so a result cannot be replayed under another identity.
pub fn build_wasm_exec_result(
    identity_key: &Identity,
    stdout_bytes: Vec<u8>,
    exec_req_id: &[u8],
) -> (r: Message)
    ensures
        r@ matches MessageView::WASM_EXEC_RESULT {
            pub_key,
            wasm_stdout,
            wasm_stdout_sig,
            exec_req_id: id,
            exec_req_id_sig,
        } && pub_key == identity_key@
            && wasm_stdout == stdout_bytes@
            && id == exec_req_id@
            && (wasm_stdout_sig.len() == 0 || sig_valid(pub_key, wasm_stdout, wasm_stdout_sig))
            && (exec_req_id_sig.len() == 0 || sig_valid(pub_key, id, exec_req_id_sig))
            && (identity_key.signing_capable() ==> wasm_stdout_sig.len() > 0
            && exec_req_id_sig.len() > 0),
{
    let wasm_stdout_sig = sign(identity_key, stdout_bytes.as_slice());
    Message::WASM_EXEC_RESULT {
        pub_key: identity_key.public_key().clone(),
        wasm_stdout: stdout_bytes,
        wasm_stdout_sig,
        exec_req_id: vstd::slice::slice_to_vec(exec_req_id),
        exec_req_id_sig: sign(identity_key, exec_req_id),
    }
}

} // verus!
