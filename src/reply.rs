//! What a connection delivers to a requester, and the shape a requester
//! decodes it into.

use vstd::prelude::*;
use crate::decode::{
    cell_before, cell_fails, decode_rows, error_at, row_decoded, CellRead, Column, DecodeError,
    DecodeErrorModel, DynamicRow, UnsupportedKind,
};

verus! {

/// The text that reports a decode error.
pub open spec fn message_of(e: DecodeErrorModel) -> Seq<char> {
    match e {
        DecodeErrorModel::Unsupported { column, kind } => match kind {
            UnsupportedKind::Decimal => "Unsupported decimal type for column '"@ + column + "'"@,
            UnsupportedKind::TimeWithTz => "Unsupported time with time zone type for column '"@ + column
                + "'"@,
        },
        DecodeErrorModel::ColumnAccess { column, message } => column + " decode error: "@ + message,
    }
}

impl DecodeError {
    /// The text that reports this error.
    pub fn message(&self) -> (r: String)
        ensures
            r@ == message_of(self@),
    {
        match self {
            DecodeError::Unsupported { column, kind } => {
                let mut s = match kind {
                    UnsupportedKind::Decimal => String::from_str("Unsupported decimal type for column '"),
                    UnsupportedKind::TimeWithTz => String::from_str(
                        "Unsupported time with time zone type for column '",
                    ),
                };
                s.append(column.as_str());
                s.append("'");
                s
            },
            DecodeError::ColumnAccess { column, message } => {
                let mut s = column.clone();
                s.append(" decode error: ");
                s.append(message.as_str());
                s
            },
        }
    }
}

/// A result set as a driver read it: the columns of its first row, and for
/// every row what was read from each of those columns.
pub struct ResultSet {
    pub columns: Vec<Column>,
    pub rows: Vec<Vec<CellRead>>,
}

impl ResultSet {
    /// Every row has one cell for each column.
    pub open spec fn wf(&self) -> bool {
        forall|i: int| 0 <= i < self.rows@.len() ==> (#[trigger] self.rows@[i])@.len() == self.columns@.len()
    }

    /// A result set of `rows` under `columns`; `None` when a row does not
    /// have one cell for each column.
    pub fn new(columns: Vec<Column>, rows: Vec<Vec<CellRead>>) -> (r: Option<ResultSet>)
        ensures
            r is Some <==> forall|i: int| 0 <= i < rows@.len() ==> (#[trigger] rows@[i])@.len() == columns@.len(),
            r matches Some(rs) ==> rs.wf() && rs.columns@ == columns@ && rs.rows@ == rows@,
    {
        let mut i: usize = 0;
        while i < rows.len()
            invariant
                i <= rows@.len(),
                forall|k: int| 0 <= k < i ==> (#[trigger] rows@[k])@.len() == columns@.len(),
            decreases rows@.len() - i,
        {
            if rows[i].len() != columns.len() {
                return None;
            }
            i = i + 1;
        }
        Some(ResultSet { columns, rows })
    }

    /// How many rows the set holds.
    pub fn len(&self) -> (r: usize)
        ensures
            r == self.rows@.len(),
    {
        self.rows.len()
    }

    /// Decodes every row, or reports the first cell that aborts the batch.
    pub fn decode(&self) -> (r: Result<Vec<DynamicRow>, DecodeError>)
        requires
            self.wf(),
        ensures
            r is Ok <==> forall|i: int, j: int|
                0 <= i < self.rows@.len() && 0 <= j < self.columns@.len() ==> !cell_fails(
                    self.columns@,
                    self.rows@,
                    i,
                    j,
                ),
            r matches Ok(out) ==> out@.len() == self.rows@.len() && forall|i: int|
                0 <= i < out@.len() ==> row_decoded((#[trigger] out@[i])@, self.columns@, self.rows@[i]@),
            r matches Err(e) ==> exists|i: int, j: int|
                0 <= i < self.rows@.len() && 0 <= j < self.columns@.len() && Some(e@) == #[trigger] error_at(
                    self.columns@,
                    self.rows@,
                    i,
                    j,
                ) && forall|i2: int, j2: int|
                    0 <= i2 < self.rows@.len() && 0 <= j2 < self.columns@.len() && cell_before(i2, j2, i, j)
                        ==> !cell_fails(self.columns@, self.rows@, i2, j2),
    {
        decode_rows(&self.columns, &self.rows)
    }
}

/// What a connection delivers for a request.
pub enum Response {
    /// The connection was established.
    Connected,
    /// The rows a query returned.
    Rows(ResultSet),
    /// The count of rows a statement affected.
    Affected(u64),
    /// The transaction committed.
    Committed,
    /// The database server refused the request with this message.
    DbError(String),
    /// The request failed otherwise.
    Error(String),
    /// The connection could not be established.
    Timeout(String),
}

/// The class of a failure reply.
#[derive(Debug, Clone, Copy, PartialEq, Eq, Structural)]
pub enum FailureKind {
    Error,
    Db,
    Timeout,
}

/// A response in the shape a requester reads.
#[derive(Debug)]
pub enum Reply {
    Rows(Vec<DynamicRow>),
    Affected(u64),
    /// A plain confirmation message.
    Message(String),
    /// A failure, with its class and message.
    Failure(FailureKind, String),
}

/// Whether a response is well formed: its result set, if any, has one cell
/// per column in every row.
pub open spec fn response_wf(response: Response) -> bool {
    match response {
        Response::Rows(rs) => rs.wf(),
        _ => true,
    }
}

/// Converts a delivered response into the shape a requester reads: rows
/// are decoded, a batch that fails to decode becomes an `Error` failure
/// with the error's message, a connection reads `success`, a commit reads
/// `ok`, and the failures keep their class and message.
pub fn reply_of(response: Response) -> (r: Reply)
    requires
        response_wf(response),
    ensures
        response matches Response::Connected ==> r matches Reply::Message(m) && m@ == "success"@,
        response matches Response::Committed ==> r matches Reply::Message(m) && m@ == "ok"@,
        response matches Response::Affected(n) ==> r matches Reply::Affected(k) && k == n,
        response matches Response::DbError(m) ==> r matches Reply::Failure(FailureKind::Db, t) && t == m,
        response matches Response::Error(m) ==> r matches Reply::Failure(FailureKind::Error, t) && t == m,
        response matches Response::Timeout(m) ==> r matches Reply::Failure(FailureKind::Timeout, t) && t == m,
        response matches Response::Rows(rs) ==> {
            let no_failure = forall|i: int, j: int|
                0 <= i < rs.rows@.len() && 0 <= j < rs.columns@.len() ==> !cell_fails(
                    rs.columns@,
                    rs.rows@,
                    i,
                    j,
                );
            &&& no_failure ==> (r matches Reply::Rows(out) && out@.len() == rs.rows@.len() && forall|i: int|
                0 <= i < out@.len() ==> row_decoded((#[trigger] out@[i])@, rs.columns@, rs.rows@[i]@))
            &&& !no_failure ==> (r matches Reply::Failure(FailureKind::Error, t) && exists|i: int, j: int|
                0 <= i < rs.rows@.len() && 0 <= j < rs.columns@.len() && (#[trigger] error_at(
                    rs.columns@,
                    rs.rows@,
                    i,
                    j,
                ) matches Some(e) && t@ == message_of(e)) && forall|i2: int, j2: int|
                    0 <= i2 < rs.rows@.len() && 0 <= j2 < rs.columns@.len() && cell_before(i2, j2, i, j)
                        ==> !cell_fails(rs.columns@, rs.rows@, i2, j2))
        },
{
    match response {
        Response::Connected => Reply::Message(String::from_str("success")),
        Response::Committed => Reply::Message(String::from_str("ok")),
        Response::Affected(n) => Reply::Affected(n),
        Response::DbError(m) => Reply::Failure(FailureKind::Db, m),
        Response::Error(m) => Reply::Failure(FailureKind::Error, m),
        Response::Timeout(m) => Reply::Failure(FailureKind::Timeout, m),
        Response::Rows(rs) => match rs.decode() {
            Ok(out) => Reply::Rows(out),
            Err(e) => {
                let t = e.message();
                proof {
                    let (i, j) = choose|i: int, j: int|
                        0 <= i < rs.rows@.len() && 0 <= j < rs.columns@.len() && Some(e@) == #[trigger] error_at(
                            rs.columns@,
                            rs.rows@,
                            i,
                            j,
                        ) && forall|i2: int, j2: int|
                            0 <= i2 < rs.rows@.len() && 0 <= j2 < rs.columns@.len() && cell_before(i2, j2, i, j)
                                ==> !cell_fails(rs.columns@, rs.rows@, i2, j2);
                    assert(error_at(rs.columns@, rs.rows@, i, j) matches Some(x) && t@ == message_of(x));
                }
                Reply::Failure(FailureKind::Error, t)
            },
        },
    }
}

} // verus!
