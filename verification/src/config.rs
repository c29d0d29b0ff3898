//! The settings of a request that come from outside: which service to ask and
//! which checkpoint to serve.

use crate::items::{CodexErr, CodexErrView};
use crate::text::has_nul;
use vstd::prelude::*;

verus! {

/// The service asked where none is named.
pub open spec fn default_service() -> Seq<char> {
    "com.yourorg.codexpc"@
}

/// The failure reported where no checkpoint is set.
pub open spec fn missing_checkpoint() -> CodexErrView {
    CodexErrView::EnvVar {
        var: "CODEXPC_CHECKPOINT"@,
        instructions: Some("Set CODEXPC_CHECKPOINT to your GPT-OSS checkpoint path"@),
    }
}

/// The checkpoint to serve: the first of the two settings that is there.
pub open spec fn checkpoint_of(
    checkpoint: Option<Seq<char>>,
    checkpoint_path: Option<Seq<char>>,
) -> Result<Seq<char>, CodexErrView> {
    match checkpoint {
        Some(c) => Ok(c),
        None => match checkpoint_path {
            Some(p) => Ok(p),
            None => Err(missing_checkpoint()),
        },
    }
}

/// The mathematical value of the outcome of resolving a setting.
pub open spec fn setting_view(r: Result<String, CodexErr>) -> Result<Seq<char>, CodexErrView> {
    match r {
        Ok(s) => Ok(s@),
        Err(e) => Err(e@),
    }
}

/// The service to ask: the one named, or the default.
pub fn resolve_service(named: Option<String>) -> (r: String)
    ensures
        r@ == (match named.deep_view() {
            Some(s) => s,
            None => default_service(),
        }),
{
    match named {
        Some(s) => s,
        None => String::from_str("com.yourorg.codexpc"),
    }
}

/// The checkpoint to serve: `checkpoint` where it is set, else
/// `checkpoint_path`; a request cannot be made without either.
pub fn resolve_checkpoint(checkpoint: Option<String>, checkpoint_path: Option<String>) -> (r:
    Result<String, CodexErr>)
    ensures
        setting_view(r) == checkpoint_of(checkpoint.deep_view(), checkpoint_path.deep_view()),
{
    match checkpoint {
        Some(c) => Ok(c),
        None => match checkpoint_path {
            Some(p) => Ok(p),
            None => Err(
                CodexErr::EnvVar {
                    var: String::from_str("CODEXPC_CHECKPOINT"),
                    instructions: Some(
                        String::from_str("Set CODEXPC_CHECKPOINT to your GPT-OSS checkpoint path"),
                    ),
                },
            ),
        },
    }
}

/// The instructions as they are sent to the service. The service takes its
/// strings up to the first NUL, so instructions that hold one are sent as
/// empty text.
pub fn instructions_to_send(instructions: &str) -> (r: String)
    ensures
        r@ == (if instructions@.contains('\0') {
            Seq::<char>::empty()
        } else {
            instructions@
        }),
{
    if has_nul(instructions) {
        String::new()
    } else {
        String::from_str(instructions)
    }
}

/// The name under which a service is asked for a handshake, or `None` where
/// the name holds a NUL: such a service cannot be named to the foreign side,
/// and nothing is known of it.
pub fn service_to_ask(service: &str) -> (r: Option<String>)
    ensures
        r.deep_view() == (if service@.contains('\0') {
            None
        } else {
            Some(service@)
        }),
{
    if has_nul(service) {
        None
    } else {
        Some(String::from_str(service))
    }
}

} // verus!
