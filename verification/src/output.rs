//! How a command reports: the output mode, and what there is to print.
use vstd::prelude::*;

use crate::json::{Json, JsonView};

verus! {

/// The global output flags.
#[derive(Debug, Clone, Copy)]
pub struct Ctx {
    /// Print JSON envelopes in place of text.
    pub json: bool,
    /// Answer yes to every confirmation.
    pub yes: bool,
    /// Never prompt.
    pub no_input: bool,
}

/// A success: the message, the data of the JSON envelope, and lines that only
/// a person is shown.
#[derive(Debug)]
pub struct Report {
    pub message: String,
    pub data: Option<Json>,
    pub notes: Vec<String>,
}

pub ghost struct ReportView {
    pub message: Seq<char>,
    pub data: Option<JsonView>,
    pub notes: Seq<Seq<char>>,
}

impl View for Report {
    type V = ReportView;

    open spec fn view(&self) -> ReportView {
        ReportView {
            message: self.message@,
            data: match self.data {
                Some(j) => Some(j@),
                None => None,
            },
            notes: crate::text::views(self.notes@),
        }
    }
}

/// A message with nothing else.
pub open spec fn message_only(message: Seq<char>) -> ReportView {
    ReportView { message, data: None, notes: seq![] }
}

pub fn report(message: String) -> (r: Report)
    ensures
        r@ == message_only(message@),
{
    let r = Report { message, data: None, notes: crate::error::list0() };
    r
}

pub fn report_with(message: String, data: Json) -> (r: Report)
    ensures
        r@ == (ReportView { message: message@, data: Some(data@), notes: seq![] }),
{
    Report { message, data: Some(data), notes: crate::error::list0() }
}

/// What a listing prints.
#[derive(Debug)]
pub enum Listing<R> {
    /// A message in place of a table.
    Message(String),
    /// A JSON result in place of a table.
    Data(Json),
    /// The rows of a table.
    Rows(Vec<R>),
    /// Nothing at all.
    Nothing,
}

} // verus!
