//! Programs and their saved state.
use vstd::prelude::*;

use crate::ids::ProgramId;

verus! {

/// What a [`Program`] holds.
pub struct ProgramView {
    pub id: ProgramId,
    pub code: Seq<u8>,
    pub static_pages: Seq<u8>,
    pub message_nonce: u64,
}

/// A program with the state that is kept of it between runs.
#[derive(Debug)]
pub struct Program {
    id: ProgramId,
    code: Vec<u8>,
    static_pages: Vec<u8>,
    message_nonce: u64,
}

impl View for Program {
    type V = ProgramView;

    closed spec fn view(&self) -> ProgramView {
        ProgramView {
            id: self.id,
            code: self.code@,
            static_pages: self.static_pages@,
            message_nonce: self.message_nonce,
        }
    }
}

/// The program `id` with code `code` before its first run.
pub open spec fn fresh_program(id: ProgramId, code: Seq<u8>) -> ProgramView {
    ProgramView { id, code, static_pages: Seq::empty(), message_nonce: 0 }
}

impl Program {
    /// A program that has sent no message yet.
    pub fn new(id: ProgramId, code: Vec<u8>, static_pages: Vec<u8>) -> (program: Program)
        ensures
            program@ == (ProgramView {
                id,
                code: code@,
                static_pages: static_pages@,
                message_nonce: 0,
            }),
    {
        Program { id, code, static_pages, message_nonce: 0 }
    }

    /// Identifier of the program.
    pub fn id(&self) -> (id: ProgramId)
        ensures
            id == self@.id,
    {
        self.id
    }

    /// Code of the program.
    pub fn code(&self) -> (code: &[u8])
        ensures
            code@ == self@.code,
    {
        self.code.as_slice()
    }

    /// The static memory that the program last left behind.
    pub fn static_pages(&self) -> (static_pages: &[u8])
        ensures
            static_pages@ == self@.static_pages,
    {
        self.static_pages.as_slice()
    }

    /// Replaces the saved static memory.
    pub fn set_static_pages(&mut self, static_pages: Vec<u8>)
        ensures
            final(self)@ == (ProgramView { static_pages: static_pages@, ..old(self)@ }),
    {
        self.static_pages = static_pages;
    }

    /// Number that the next message identifier of the program is made from.
    pub fn message_nonce(&self) -> (nonce: u64)
        ensures
            nonce == self@.message_nonce,
    {
        self.message_nonce
    }

    /// Replaces the message nonce.
    pub fn set_message_nonce(&mut self, nonce: u64)
        ensures
            final(self)@ == (ProgramView { message_nonce: nonce, ..old(self)@ }),
    {
        self.message_nonce = nonce;
    }

    /// Gives the program new code and forgets its saved state.
    pub fn reset(&mut self, code: Vec<u8>)
        ensures
            final(self)@ == fresh_program(old(self)@.id, code@),
    {
        self.code = code;
        self.static_pages = Vec::new();
        self.message_nonce = 0;
    }
}

impl Clone for Program {
    fn clone(&self) -> (program: Program)
        ensures
            program@ == self@,
    {
        let code: Vec<u8> = self.code.clone();
        assert(code@ =~= self.code@);
        let static_pages: Vec<u8> = self.static_pages.clone();
        assert(static_pages@ =~= self.static_pages@);
        Program { id: self.id, code, static_pages, message_nonce: self.message_nonce }
    }
}

} // verus!
