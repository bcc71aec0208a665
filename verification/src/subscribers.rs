//! Parsing the stored confirmed-subscriber rows, one row at a time: a
//! malformed address fails its own row only, never the whole read.

use vstd::prelude::*;

use crate::email::{is_valid_email, SubscriberEmail};

verus! {

/// A subscriber whose stored address parsed as a valid email.
#[derive(Debug, PartialEq, Eq)]
pub struct ConfirmedSubscriber {
    pub email: SubscriberEmail,
}

/// A stored subscriber row whose address is malformed. It carries the raw
/// stored text for the caller to log; the row is skipped, never fatal.
#[derive(Debug, PartialEq, Eq)]
pub struct RowError {
    pub stored: String,
}

/// How one stored row is parsed: a valid address becomes a confirmed
/// subscriber, anything else a row error holding the stored text.
pub open spec fn spec_row_parsed(row: Seq<char>, out: Result<ConfirmedSubscriber, RowError>) -> bool {
    match out {
        Ok(cs) => is_valid_email(row) && cs.email@ == row,
        Err(re) => !is_valid_email(row) && re.stored@ == row,
    }
}

/// Parses every stored confirmed-subscriber row independently: the result
/// has one entry per row, in source order, and a malformed address yields
/// an error for that row alone.
#[verifier::loop_isolation(false)]
pub fn get_confirmed_subscribers(rows: Vec<String>) -> (r: Vec<Result<ConfirmedSubscriber, RowError>>)
    ensures
        r@.len() == rows@.len(),
        forall|i: int| 0 <= i < rows@.len() ==> spec_row_parsed(rows@[i]@, #[trigger] r@[i]),
{
    let mut out: Vec<Result<ConfirmedSubscriber, RowError>> = Vec::new();
    let n = rows.len();
    let mut idx: usize = 0;
    while idx < n
        invariant
            idx <= n,
            out@.len() == idx,
            forall|i: int| 0 <= i < idx ==> spec_row_parsed(rows@[i]@, #[trigger] out@[i]),
        decreases n - idx,
    {
        let row = rows[idx].clone();
        match SubscriberEmail::parse(row) {
            Ok(email) => out.push(Ok(ConfirmedSubscriber { email })),
            Err(stored) => out.push(Err(RowError { stored })),
        }
        idx += 1;
    }
    out
}

} // verus!
