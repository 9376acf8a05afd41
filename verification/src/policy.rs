//! Trust/policy glue: maps a verified sender to an execution budget and
//! dispatches a verified request into the sandbox, producing a signed
//! result.
//!
//! The classification of a sender as trusted is supplied by the caller's
//! policy; the core only consumes the resulting boolean.  An unverifiable
//! request is rejected outright: no execution occurs for it.
use vstd::prelude::*;
use crate::config::Config;
use crate::exec::{run_wasm, spec_run_wasm};
use crate::message::{
    Message,
    MessageView,
    build_wasm_exec_result,
    msg_valid,
    verify_message,
};
use crate::sig::sig_valid;

verus! {

/// The budget a sender classification selects.
pub open spec fn spec_select_budget(untrusted_max: u64, trusted_max: u64, trusted: bool) -> u64 {
    if trusted {
        trusted_max
    } else {
        untrusted_max
    }
}

/// Selects the instruction budget for a request: the trusted ceiling for a
/// trusted sender, the untrusted ceiling otherwise.
pub fn select_budget(c: &Config, sender_trusted: bool) -> (r: u64)
    ensures
        r == spec_select_budget(c.untrusted_max_cycles, c.trusted_max_cycles, sender_trusted),
{
    if sender_trusted {
        c.trusted_max_cycles
    } else {
        c.untrusted_max_cycles
    }
}

/// The correlation token of a request, for relating a result to it.
pub open spec fn request_id_of(m: MessageView) -> Seq<u8> {
    match m {
        MessageView::WASM_EXEC_REQUEST { exec_req_id, .. } => exec_req_id,
        _ => Seq::empty(),
    }
}

/// The module bytes of a request.
pub open spec fn request_binary_of(m: MessageView) -> Seq<u8> {
    match m {
        MessageView::WASM_EXEC_REQUEST { wasm_binary, .. } => wasm_binary,
        _ => Seq::empty(),
    }
}

/// The argument list of a request.
pub open spec fn request_args_of(m: MessageView) -> Seq<Seq<u8>> {
    match m {
        MessageView::WASM_EXEC_REQUEST { arguments, .. } => arguments,
        _ => Seq::empty(),
    }
}

/// Handles one inbound message.  Only a `WASM_EXEC_REQUEST` whose every
/// signature checks is executed; everything else is rejected with `None`
/// and never reaches the sandbox.  A produced result carries exactly what
/// the sandbox's run under the classification's budget wrote, echoes the
/// request's correlation token, and is re-signed under this node's own
/// identity; with a signing-capable identity every signature is valid.
pub fn handle_request(c: &Config, sender_trusted: bool, msg: &Message) -> (r: Option<Message>)
    requires
        msg@ matches MessageView::WASM_EXEC_REQUEST { arguments, .. } ==> arguments.len()
            <= u32::MAX,
    ensures
        match r {
            Some(res) => {
                &&& msg@ matches MessageView::WASM_EXEC_REQUEST { .. }
                &&& msg_valid(msg@)
                &&& (res@ matches MessageView::WASM_EXEC_RESULT {
                    pub_key,
                    wasm_stdout,
                    wasm_stdout_sig,
                    exec_req_id,
                    exec_req_id_sig,
                } && pub_key == c.identity_key@ && exec_req_id == request_id_of(msg@)
                    && wasm_stdout == spec_run_wasm(
                    spec_select_budget(c.untrusted_max_cycles, c.trusted_max_cycles, sender_trusted),
                    request_binary_of(msg@),
                    request_args_of(msg@).len() as u32,
                ).1 && (wasm_stdout_sig.len() == 0 || sig_valid(
                    pub_key,
                    wasm_stdout,
                    wasm_stdout_sig,
                )) && (exec_req_id_sig.len() == 0 || sig_valid(pub_key, exec_req_id, exec_req_id_sig))
                    && (c.identity_key.signing_capable() ==> wasm_stdout_sig.len() > 0
                    && exec_req_id_sig.len() > 0))
            },
            None => !(msg@ matches MessageView::WASM_EXEC_REQUEST { .. } && msg_valid(msg@)),
        },
{
    match msg {
        Message::WASM_EXEC_REQUEST { wasm_binary, arguments, exec_req_id, .. } => {
            if !verify_message(msg) {
                return None;
            }
            let budget = select_budget(c, sender_trusted);
            let (_outcome, stdout) = run_wasm(budget, wasm_binary.as_slice(), arguments);
            Some(build_wasm_exec_result(&c.identity_key, stdout, exec_req_id.as_slice()))
        },
        _ => None,
    }
}

} // verus!
