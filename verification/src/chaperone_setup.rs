//! The play area: exporting what the runtime knows of it.
//!
//! The export is text that the runtime writes into a buffer. It takes two
//! calls: one without a buffer, which tells how many bytes the text takes,
//! and one with a buffer of that size.

use crate::text::{is_nul_terminated, NulString};
use crate::Context;
use vstd::prelude::*;

verus! {

/// One call of the interface that sets up the play area.
#[derive(Clone, Copy, Debug, PartialEq, Eq, Structural)]
pub enum ChaperoneCall {
    /// The export, into a buffer of `capacity` bytes. No buffer is handed
    /// over where `capacity` is zero.
    ExportLiveToBuffer { capacity: u32 },
}

/// The part of a session that works on the play area.
pub struct ChaperoneSetupManager<'c> {
    ctx: &'c Context,
}

impl<'c> ChaperoneSetupManager<'c> {
    /// The session that this manager works in.
    pub closed spec fn session(self) -> Context {
        *self.ctx
    }

    pub fn new(ctx: &'c Context) -> (manager: ChaperoneSetupManager<'c>)
        ensures
            manager.session() == *ctx,
    {
        ChaperoneSetupManager { ctx }
    }

    /// Starts an export: the call without a buffer.
    pub fn export_live_to_buffer(&self) -> (call: ChaperoneCall)
        ensures
            call == (ChaperoneCall::ExportLiveToBuffer { capacity: 0 }),
    {
        ChaperoneCall::ExportLiveToBuffer { capacity: 0 }
    }

    /// Takes the answer to the call without a buffer: whether it
    /// succeeded, and the length it reported. The export goes on with a
    /// buffer of that length, and ends without a result where the call
    /// failed or there is nothing to export.
    pub fn finish_export_probe(&self, succeeded: bool, len: u32) -> (next: Option<ChaperoneCall>)
        ensures
            next == (if succeeded && len != 0 {
                Some(ChaperoneCall::ExportLiveToBuffer { capacity: len })
            } else {
                None
            }),
    {
        if !succeeded || len == 0 {
            None
        } else {
            Some(ChaperoneCall::ExportLiveToBuffer { capacity: len })
        }
    }

    /// Takes the answer to the call with a buffer. There is a result
    /// where the call succeeded and the buffer ends in a zero byte and
    /// holds no other.
    pub fn finish_export(&self, succeeded: bool, buffer: Vec<u8>) -> (exported: Option<NulString>)
        ensures
            exported is Some <==> succeeded && is_nul_terminated(buffer@),
            exported matches Some(text) ==> text.with_nul() == buffer@,
    {
        if succeeded {
            NulString::from_vec_with_nul(buffer)
        } else {
            None
        }
    }
}

} // verus!
