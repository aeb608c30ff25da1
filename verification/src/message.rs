//! Rendering of error messages.
//!
//! The text for a driver error is the driver's own: it is asked to describe
//! the status code behind the error. Errors that the binding raises by itself
//! have fixed texts. Rendering never fails: where the driver cannot be asked,
//! a fixed text says so.
use vstd::prelude::*;
use crate::error::CudaError;
use crate::status::to_result;
use crate::status::translate;

verus! {

/// What the driver hands back when asked to describe a status code.
#[derive(Clone, Debug)]
pub struct Description {
    /// Raw status of the lookup itself. The lookup is a driver call like any
    /// other and can fail, for one when the driver is not initialized.
    pub status: u32,
    /// The driver's text for the code asked about. It means something only
    /// where the lookup succeeded.
    pub text: String,
}

impl Description {
    /// The message that this answer amounts to: the driver's text where the
    /// lookup succeeded, and a fixed text where it failed.
    pub open spec fn message(self) -> Seq<char> {
        if translate(self.status) is Ok {
            self.text@
        } else {
            "error description unavailable"@
        }
    }

    /// Turns the driver's answer into a message. A failed lookup is absorbed
    /// here: it yields the fixed text, never a second error.
    pub fn into_message(self) -> (text: String)
        ensures
            text@ == self.message(),
    {
        match to_result(self.status) {
            Ok(()) => self.text,
            Err(_) => "error description unavailable".to_owned(),
        }
    }
}

impl CudaError {
    /// The fixed text of an error that the binding raises by itself.
    pub open spec fn own_text(self) -> Seq<char> {
        match self {
            CudaError::InvalidMemoryAllocation => "Invalid memory allocation"@,
            CudaError::OptixError => "OptiX error"@,
            _ => "Unknown error"@,
        }
    }

    /// The message for this error, given the driver's answer on its status
    /// code. An error that the binding raises by itself has its fixed text,
    /// whatever the answer holds.
    pub open spec fn rendered(self, reply: Description) -> Seq<char> {
        if self.is_driver_error() {
            reply.message()
        } else {
            self.own_text()
        }
    }

    /// Renders the message for this error from the answer that the driver
    /// gave on [`raw_code`](CudaError::raw_code). For an error that the
    /// binding raises by itself no answer is needed, and `reply` is not read.
    pub fn render_reply(self, reply: Description) -> (text: String)
        ensures
            text@ == self.rendered(reply),
    {
        match self.raw_code() {
            Some(_) => reply.into_message(),
            None => self.own_message(),
        }
    }

    /// Renders the message for this error, asking `describe` for the
    /// driver's description where the error mirrors a driver status.
    ///
    /// `describe` is called at most once, with the raw code of this error,
    /// and not at all for an error that the binding raises by itself.
    pub fn render<F: Fn(u32) -> Description>(self, describe: F) -> (text: String)
        requires
            self.is_driver_error() ==> describe.requires((self.discriminant(),)),
        ensures
            !self.is_driver_error() ==> text@ == self.own_text(),
            self.is_driver_error() ==> exists|reply: Description|
                #[trigger] describe.ensures((self.discriminant(),), reply) && text@
                    == self.rendered(reply),
    {
        match self.raw_code() {
            Some(code) => {
                let reply = describe(code);
                reply.into_message()
            },
            None => self.own_message(),
        }
    }

    /// The text for an error without a driver status behind it.
    fn own_message(self) -> (text: String)
        ensures
            text@ == self.own_text(),
    {
        match self {
            CudaError::InvalidMemoryAllocation => "Invalid memory allocation".to_owned(),
            CudaError::OptixError => "OptiX error".to_owned(),
            _ => "Unknown error".to_owned(),
        }
    }
}

/// A rendered message is never empty, whether the lookup succeeded or not,
/// as long as the driver does not describe the status of a driver error by
/// the empty text.
pub proof fn lemma_rendered_nonempty(e: CudaError, reply: Description)
    requires
        e.is_driver_error() && translate(reply.status) is Ok ==> reply.text@.len() > 0,
    ensures
        e.rendered(reply).len() > 0,
{
    reveal_strlit("error description unavailable");
    reveal_strlit("Invalid memory allocation");
    reveal_strlit("OptiX error");
    reveal_strlit("Unknown error");
}

} // verus!
