//! A duel as the host holds it: the engine's handle, how the handle comes to
//! be known, and what the engine's status codes mean.

use crate::ocg::{
    OCG_DUEL_CREATION_NOT_CREATED, OCG_DUEL_CREATION_NO_OUTPUT,
    OCG_DUEL_CREATION_NULL_DATA_READER, OCG_DUEL_CREATION_NULL_SCRIPT_READER,
    OCG_DUEL_CREATION_SUCCESS, OCG_DUEL_STATUS_AWAITING, OCG_DUEL_STATUS_CONTINUE,
    OCG_DUEL_STATUS_END,
};
use vstd::prelude::*;

verus! {

/// What the engine reports after it was advanced.
#[derive(Debug, Clone, Copy, PartialEq, Eq, Structural)]
pub enum DuelStatus {
    /// The duel has ended.
    End,
    /// A response is required before the duel can be advanced again.
    Awaiting,
    /// The duel can be advanced again at once.
    Continue,
}

impl DuelStatus {
    /// The status that a code of the engine stands for, if it stands for one.
    pub open spec fn decode(code: i32) -> Option<DuelStatus> {
        if code == OCG_DUEL_STATUS_END {
            Some(DuelStatus::End)
        } else if code == OCG_DUEL_STATUS_AWAITING {
            Some(DuelStatus::Awaiting)
        } else if code == OCG_DUEL_STATUS_CONTINUE {
            Some(DuelStatus::Continue)
        } else {
            None
        }
    }

    /// The engine's code for this status.
    pub open spec fn encode(self) -> i32 {
        match self {
            DuelStatus::End => OCG_DUEL_STATUS_END,
            DuelStatus::Awaiting => OCG_DUEL_STATUS_AWAITING,
            DuelStatus::Continue => OCG_DUEL_STATUS_CONTINUE,
        }
    }

    /// Reads a status code of the engine. Codes that the engine does not
    /// document give `None`.
    pub fn from_code(code: i32) -> (status: Option<DuelStatus>)
        ensures
            status == DuelStatus::decode(code),
    {
        if code == OCG_DUEL_STATUS_END {
            Some(DuelStatus::End)
        } else if code == OCG_DUEL_STATUS_AWAITING {
            Some(DuelStatus::Awaiting)
        } else if code == OCG_DUEL_STATUS_CONTINUE {
            Some(DuelStatus::Continue)
        } else {
            None
        }
    }

    /// The engine's code for this status.
    pub fn code(&self) -> (code: i32)
        ensures
            code == self.encode(),
    {
        match self {
            DuelStatus::End => OCG_DUEL_STATUS_END,
            DuelStatus::Awaiting => OCG_DUEL_STATUS_AWAITING,
            DuelStatus::Continue => OCG_DUEL_STATUS_CONTINUE,
        }
    }

    /// Every status is read back from its own code, and a code stands for at
    /// most one status.
    pub proof fn lemma_code_round_trip(status: DuelStatus, code: i32)
        ensures
            DuelStatus::decode(status.encode()) == Some(status),
            DuelStatus::decode(code) == Some(status) ==> code == status.encode(),
    {
    }
}

/// Why the engine created no duel.
#[derive(Debug, Clone, Copy, PartialEq, Eq, Structural)]
pub enum DuelCreationError {
    /// No handle came out of the creation.
    NoOutput,
    /// The engine could not create the duel.
    NotCreated,
    /// No card reader was registered.
    NullDataReader,
    /// No script reader was registered.
    NullScriptReader,
    /// The engine answered with a status that it does not document.
    Unknown(i32),
}

impl DuelCreationError {
    /// A line that names the failure.
    pub fn message(&self) -> (text: &'static str)
        ensures
            text@ == match *self {
                DuelCreationError::NoOutput => "Failed to create duel: OCG_DUEL_CREATION_NO_OUTPUT"@,
                DuelCreationError::NotCreated => "Failed to create duel: OCG_DUEL_CREATION_NOT_CREATED"@,
                DuelCreationError::NullDataReader => "Failed to create duel: OCG_DUEL_CREATION_NULL_DATA_READER"@,
                DuelCreationError::NullScriptReader => "Failed to create duel: OCG_DUEL_CREATION_NULL_SCRIPT_READER"@,
                DuelCreationError::Unknown(_) => "Failed to create duel: unknown creation status"@,
            },
    {
        match self {
            DuelCreationError::NoOutput => "Failed to create duel: OCG_DUEL_CREATION_NO_OUTPUT",
            DuelCreationError::NotCreated => "Failed to create duel: OCG_DUEL_CREATION_NOT_CREATED",
            DuelCreationError::NullDataReader => "Failed to create duel: OCG_DUEL_CREATION_NULL_DATA_READER",
            DuelCreationError::NullScriptReader => "Failed to create duel: OCG_DUEL_CREATION_NULL_SCRIPT_READER",
            DuelCreationError::Unknown(_) => "Failed to create duel: unknown creation status",
        }
    }
}

/// What a creation that ended with `status` and put out `handle` amounts
/// to: the handle of the new duel, or why there is none.
pub open spec fn creation_outcome(status: i32, handle: usize) -> Result<usize, DuelCreationError> {
    if status == OCG_DUEL_CREATION_SUCCESS {
        if handle != 0 {
            Ok(handle)
        } else {
            Err(DuelCreationError::NoOutput)
        }
    } else if status == OCG_DUEL_CREATION_NO_OUTPUT {
        Err(DuelCreationError::NoOutput)
    } else if status == OCG_DUEL_CREATION_NOT_CREATED {
        Err(DuelCreationError::NotCreated)
    } else if status == OCG_DUEL_CREATION_NULL_DATA_READER {
        Err(DuelCreationError::NullDataReader)
    } else if status == OCG_DUEL_CREATION_NULL_SCRIPT_READER {
        Err(DuelCreationError::NullScriptReader)
    } else {
        Err(DuelCreationError::Unknown(status))
    }
}

/// A duel of the engine, held by its handle.
///
/// The handle is the address the engine gave out, zero while none is known.
/// A `Duel` cannot be copied, and `destroy` consumes it: the handle is given
/// up once, and nothing can use the duel afterwards.
#[derive(Debug)]
pub struct Duel {
    ptr: usize,
}

impl Duel {
    /// The engine's handle, zero while the duel is not bound to one.
    pub closed spec fn handle(&self) -> usize {
        self.ptr
    }

    /// The duel stands for a duel of the engine.
    pub open spec fn is_bound(&self) -> bool {
        self.handle() != 0
    }

    /// A duel that waits for the engine to create it.
    ///
    /// The engine may load scripts while it creates a duel, and a script
    /// handler is given the duel that the script is for. So the duel exists
    /// before its handle is known; it is bound to the handle when the engine
    /// first names it, and by `complete` at the latest.
    pub fn pending() -> (duel: Duel)
        ensures
            !duel.is_bound(),
    {
        Duel { ptr: 0 }
    }

    /// Binds the duel to the handle that the engine named. A null handle
    /// names no duel and changes nothing.
    pub(crate) fn bind(&mut self, handle: usize) -> (bound: bool)
        ensures
            bound == (handle != 0),
            handle != 0 ==> final(self).handle() == handle,
            handle == 0 ==> final(self).handle() == old(self).handle(),
    {
        if handle != 0 {
            self.ptr = handle;
            true
        } else {
            false
        }
    }

    /// Ends the creation: the duel bound to the handle that the engine put
    /// out, or the reason why there is no duel.
    ///
    /// Only the success status with a handle that is not null gives a duel.
    /// Any other status is final for the configuration that was used; trying
    /// again with the same configuration gives the same answer.
    pub fn complete(self, status: i32, handle: usize) -> (created: Result<Duel, DuelCreationError>)
        ensures
            created matches Ok(duel) ==> creation_outcome(status, handle) == Ok::<
                usize,
                DuelCreationError,
            >(duel.handle()),
            created matches Err(error) ==> creation_outcome(status, handle) == Err::<
                usize,
                DuelCreationError,
            >(error),
    {
        if status == OCG_DUEL_CREATION_SUCCESS {
            if handle != 0 {
                Ok(Duel { ptr: handle })
            } else {
                Err(DuelCreationError::NoOutput)
            }
        } else if status == OCG_DUEL_CREATION_NO_OUTPUT {
            Err(DuelCreationError::NoOutput)
        } else if status == OCG_DUEL_CREATION_NOT_CREATED {
            Err(DuelCreationError::NotCreated)
        } else if status == OCG_DUEL_CREATION_NULL_DATA_READER {
            Err(DuelCreationError::NullDataReader)
        } else if status == OCG_DUEL_CREATION_NULL_SCRIPT_READER {
            Err(DuelCreationError::NullScriptReader)
        } else {
            Err(DuelCreationError::Unknown(status))
        }
    }

    /// The engine's handle.
    ///
    /// The handle stays the duel's own: building a second `Duel` around it
    /// would release it twice.
    pub fn get_raw_ptr(&self) -> (ptr: usize)
        ensures
            ptr == self.handle(),
    {
        self.ptr
    }

    /// Gives the duel up. What comes back is the handle to release, the last
    /// use that may be made of it.
    pub fn destroy(self) -> (handle: usize)
        ensures
            handle == self.handle(),
    {
        self.ptr
    }
}

/// A duel that was created has a handle that is not null, and a creation
/// gives a duel only on the success status.
pub proof fn lemma_created_duel_is_bound(status: i32, handle: usize)
    ensures
        creation_outcome(status, handle) matches Ok(h) ==> h != 0 && h == handle && status
            == OCG_DUEL_CREATION_SUCCESS,
        status != OCG_DUEL_CREATION_SUCCESS ==> creation_outcome(status, handle) is Err,
        status == OCG_DUEL_CREATION_NULL_DATA_READER ==> creation_outcome(status, handle) == Err::<
            usize,
            DuelCreationError,
        >(DuelCreationError::NullDataReader),
        status == OCG_DUEL_CREATION_NULL_SCRIPT_READER ==> creation_outcome(status, handle)
            == Err::<usize, DuelCreationError>(DuelCreationError::NullScriptReader),
{
}

} // verus!
