//! Handing a script to the engine: what may be passed, and what the engine's
//! answer means.

use crate::error::DuelError;
use vstd::prelude::*;
use vstd::string::StringSliceAdditionalSpecFns;

verus! {

/// `at` holds a zero byte and no index in front of it does.
pub open spec fn is_first_nul(bytes: Seq<u8>, at: int) -> bool {
    &&& 0 <= at < bytes.len()
    &&& bytes[at] == 0
    &&& forall|i: int| 0 <= i < at ==> bytes[i] != 0
}

/// No byte is zero.
pub open spec fn has_no_nul(bytes: Seq<u8>) -> bool {
    forall|i: int| 0 <= i < bytes.len() ==> bytes[i] != 0
}

/// `error` says that the script `name` failed to load.
pub open spec fn is_load_failure(error: DuelError, name: Seq<char>) -> bool {
    match error {
        DuelError::ScriptLoadFailure(failed) => failed@ == name,
        DuelError::NulError(_) => false,
    }
}

/// A text has at most one first zero byte, and none if no byte is zero.
pub proof fn lemma_first_nul_unique(bytes: Seq<u8>, at: int, other: int)
    requires
        is_first_nul(bytes, at),
    ensures
        is_first_nul(bytes, other) ==> other == at,
        !has_no_nul(bytes),
{
    if is_first_nul(bytes, other) {
        if other < at {
            assert(bytes[other] != 0);
        } else if other > at {
            assert(bytes[at] != 0);
        }
    }
}

/// Finds the first zero byte of `bytes`. A text that holds one cannot be
/// passed to the engine, which reads texts up to their first zero byte.
pub fn find_nul(bytes: &[u8]) -> (found: Option<usize>)
    ensures
        match found {
            Some(at) => is_first_nul(bytes@, at as int),
            None => has_no_nul(bytes@),
        },
{
    let mut at: usize = 0;
    while at < bytes.len()
        invariant
            at <= bytes@.len(),
            forall|i: int| 0 <= i < at ==> bytes@[i] != 0,
        decreases bytes@.len() - at,
    {
        if bytes[at] == 0 {
            return Some(at);
        }
        at += 1;
    }
    None
}

/// Checks a script and its name before they go to the engine, and gives the
/// script's length in bytes as the engine is to be told it.
///
/// A zero byte in the script, or else in the name, is reported with its
/// index. A script of more bytes than 32 bits can count is reported as a
/// script that failed to load. In both cases the engine is not to be asked.
pub fn check_script(src_code: &str, name: &str) -> (checked: Result<u32, DuelError>)
    ensures
        match checked {
            Ok(len) => {
                &&& has_no_nul(src_code.spec_bytes())
                &&& has_no_nul(name.spec_bytes())
                &&& len == src_code.spec_bytes().len()
            },
            Err(DuelError::NulError(at)) => {
                ||| is_first_nul(src_code.spec_bytes(), at as int)
                ||| has_no_nul(src_code.spec_bytes()) && is_first_nul(name.spec_bytes(), at as int)
            },
            Err(DuelError::ScriptLoadFailure(failed)) => {
                &&& has_no_nul(src_code.spec_bytes())
                &&& has_no_nul(name.spec_bytes())
                &&& src_code.spec_bytes().len() > u32::MAX
                &&& failed@ == name@
            },
        },
{
    let source = src_code.as_bytes();
    if let Some(at) = find_nul(source) {
        return Err(DuelError::NulError(at));
    }
    if let Some(at) = find_nul(name.as_bytes()) {
        return Err(DuelError::NulError(at));
    }
    if source.len() > u32::MAX as usize {
        return Err(DuelError::ScriptLoadFailure(name.to_owned()));
    }
    Ok(source.len() as u32)
}

/// What the engine's answer to a request to load the script `name` means:
/// zero is a failure, anything else a success.
pub fn script_outcome(result: i32, name: &str) -> (outcome: Result<(), DuelError>)
    ensures
        match outcome {
            Ok(_) => result != 0,
            Err(error) => result == 0 && is_load_failure(error, name@),
        },
{
    if result == 0 {
        return Err(DuelError::ScriptLoadFailure(name.to_owned()));
    }
    Ok(())
}

} // verus!
