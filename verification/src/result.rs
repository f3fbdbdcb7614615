//! What runs report.
use vstd::prelude::*;
use vstd::string::StringExecFns;

use crate::ext::PageAction;
use crate::ids::{PageNumber, ProgramId};
use crate::message::{outgoing_views, reply_view, OutgoingMessage, OutgoingView, ReplyMessage, ReplyView};

verus! {

/// Why a run did not succeed.
#[derive(Debug)]
pub enum RunError {
    /// The message is for a program that does not exist.
    ProgramNotFound,
    /// The code of the program could not be instrumented; says why.
    Instrument(String),
    /// The program failed; says how.
    Execution(String),
}

impl RunError {
    /// The text of the error.
    pub open spec fn text(&self) -> Seq<char> {
        match self {
            RunError::ProgramNotFound => "Program not found"@,
            RunError::Instrument(why) => "Error instrumenting: "@ + why@,
            RunError::Execution(why) => why@,
        }
    }

    /// The error in words.
    pub fn message(&self) -> (message: String)
        ensures
            message@ == self.text(),
    {
        match self {
            RunError::ProgramNotFound => String::from_str("Program not found"),
            RunError::Instrument(why) => {
                let mut message: String = String::from_str("Error instrumenting: ");
                message.append(why.as_str());
                message
            },
            RunError::Execution(why) => why.clone(),
        }
    }
}

/// What a [`RunResult`] holds.
pub struct RunResultView {
    pub touched: Seq<(PageNumber, PageAction)>,
    pub messages: Seq<OutgoingView>,
    pub reply: Option<ReplyView>,
    pub gas_left: u64,
    pub gas_spent: u64,
}

/// The result of running some program.
#[derive(Clone, Debug)]
pub struct RunResult {
    /// Pages that were touched during the run.
    pub touched: Vec<(PageNumber, PageAction)>,
    /// Messages that were generated during the run.
    pub messages: Vec<OutgoingMessage>,
    /// Reply that was given during the run.
    pub reply: Option<ReplyMessage>,
    /// Gas that was left.
    pub gas_left: u64,
    /// Gas that was spent.
    pub gas_spent: u64,
}

impl View for RunResult {
    type V = RunResultView;

    open spec fn view(&self) -> RunResultView {
        RunResultView {
            touched: self.touched@,
            messages: outgoing_views(self.messages@),
            reply: reply_view(self.reply),
            gas_left: self.gas_left,
            gas_spent: self.gas_spent,
        }
    }
}

impl Default for RunResult {
    /// A run that did nothing.
    fn default() -> (result: RunResult)
        ensures
            result@ == (RunResultView {
                touched: Seq::empty(),
                messages: Seq::empty(),
                reply: None,
                gas_left: 0,
                gas_spent: 0,
            }),
    {
        let messages: Vec<OutgoingMessage> = Vec::new();
        assert(outgoing_views(messages@) =~= Seq::<OutgoingView>::empty());
        RunResult { touched: Vec::new(), messages, reply: None, gas_left: 0, gas_spent: 0 }
    }
}

/// What a [`RunNextResult`] holds.
pub struct RunNextView {
    pub handled: int,
    pub touched: Seq<(PageNumber, PageAction)>,
    pub gas_left: Seq<(ProgramId, u64)>,
    pub gas_spent: Seq<(ProgramId, u64)>,
}

/// The result of handling no message.
pub open spec fn nothing_handled() -> RunNextView {
    RunNextView {
        handled: 0,
        touched: Seq::empty(),
        gas_left: Seq::empty(),
        gas_spent: Seq::empty(),
    }
}

/// The result of handling one message that was only logged.
pub open spec fn one_logged() -> RunNextView {
    RunNextView { handled: 1, ..nothing_handled() }
}

/// `total` with one more run added to it.
pub open spec fn accrued(total: RunNextView, program_id: ProgramId, run: RunResultView) -> RunNextView {
    RunNextView {
        handled: total.handled + 1,
        touched: total.touched + run.touched,
        gas_left: total.gas_left.push((program_id, run.gas_left)),
        gas_spent: total.gas_spent.push((program_id, run.gas_spent)),
    }
}

/// Result of one or more message handling.
#[derive(Clone, Debug)]
pub struct RunNextResult {
    /// How many messages were handled
    pub handled: u32,
    /// Pages that were touched during the run.
    pub touched: Vec<(PageNumber, PageAction)>,
    /// Gas that was left.
    pub gas_left: Vec<(ProgramId, u64)>,
    /// Gas that was spent.
    pub gas_spent: Vec<(ProgramId, u64)>,
}

impl View for RunNextResult {
    type V = RunNextView;

    open spec fn view(&self) -> RunNextView {
        RunNextView {
            handled: self.handled as int,
            touched: self.touched@,
            gas_left: self.gas_left@,
            gas_spent: self.gas_spent@,
        }
    }
}

impl Default for RunNextResult {
    /// Empty run result.
    fn default() -> (result: RunNextResult)
        ensures
            result@ == nothing_handled(),
    {
        RunNextResult {
            handled: 0,
            touched: Vec::new(),
            gas_left: Vec::new(),
            gas_spent: Vec::new(),
        }
    }
}

impl RunNextResult {
    /// Result that notes that some log message had been handled, otherwise empty.
    pub fn log() -> (result: RunNextResult)
        ensures
            result@ == one_logged(),
    {
        RunNextResult {
            handled: 1,
            touched: Vec::new(),
            gas_left: Vec::new(),
            gas_spent: Vec::new(),
        }
    }

    /// Accrue one run of the message handling.
    pub fn accrue(&mut self, program_id: ProgramId, result: RunResult)
        requires
            old(self).handled < u32::MAX,
        ensures
            final(self)@ == accrued(old(self)@, program_id, result@),
    {
        let mut touched: Vec<(PageNumber, PageAction)> = result.touched;
        self.handled = self.handled + 1;
        self.touched.append(&mut touched);
        self.gas_left.push((program_id, result.gas_left));
        self.gas_spent.push((program_id, result.gas_spent));
    }

    /// Empty run result.
    pub fn empty() -> (result: RunNextResult)
        ensures
            result@ == nothing_handled(),
    {
        RunNextResult::default()
    }

    /// From one single run.
    pub fn from_single(program_id: ProgramId, run_result: RunResult) -> (result: RunNextResult)
        ensures
            result@ == accrued(nothing_handled(), program_id, run_result@),
    {
        let mut result = RunNextResult::empty();
        result.accrue(program_id, run_result);
        result
    }
}

} // verus!
