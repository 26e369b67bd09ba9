//! The ways in which a query or an ingestion can fail.

use vstd::prelude::*;

verus! {

/// A request that cannot be served as it was written. Always the caller's
/// fault, never the server's.
#[derive(Debug, Clone, Copy, PartialEq, Eq, Structural)]
pub enum ValidationError {
    /// `count` is no number, or outside `1..=max_count`.
    InvalidCount,
    /// `page` is no number, or below 1.
    InvalidPage,
    /// `from` or `to` is present but is no UTC date and time.
    InvalidDateFormat,
    /// `from` lies after `to`.
    FromAfterTo,
    /// `sort_by` names no field of the series.
    InvalidSortField,
}

impl ValidationError {
    /// The text shown to the caller.
    pub open spec fn text(self) -> Seq<char> {
        match self {
            ValidationError::InvalidCount => "Count must be a number between 1 and the maximum."@,
            ValidationError::InvalidPage => "Page must be a number greater than or equal to 1."@,
            ValidationError::InvalidDateFormat => "Invalid date format. Use 'YYYY-MM-DDTHH:MM:SS'."@,
            ValidationError::FromAfterTo => "'from' cannot be greater than 'to'."@,
            ValidationError::InvalidSortField => "Invalid sort_by parameter."@,
        }
    }

    /// The HTTP status that reports it: a bad request, whatever the variant.
    pub fn status(&self) -> (code: u16)
        ensures
            code == 400,
    {
        400
    }

    /// The text shown to the caller.
    pub fn message(&self) -> (message: String)
        ensures
            message@ == self.text(),
    {
        match self {
            ValidationError::InvalidCount => "Count must be a number between 1 and the maximum.".to_owned(),
            ValidationError::InvalidPage => "Page must be a number greater than or equal to 1.".to_owned(),
            ValidationError::InvalidDateFormat => "Invalid date format. Use 'YYYY-MM-DDTHH:MM:SS'.".to_owned(),
            ValidationError::FromAfterTo => "'from' cannot be greater than 'to'.".to_owned(),
            ValidationError::InvalidSortField => "Invalid sort_by parameter.".to_owned(),
        }
    }
}

/// A valid query that could not be answered.
#[derive(Debug, Clone, Copy, PartialEq, Eq, Structural)]
pub enum QueryError {
    /// No bucketed row is left on the requested page.
    NoDataFound,
    /// The store failed while it was read.
    Store,
}

impl QueryError {
    /// The text shown to the caller.
    pub open spec fn text(self) -> Seq<char> {
        match self {
            QueryError::NoDataFound => "No data found for the given parameters."@,
            QueryError::Store => "Error fetching data"@,
        }
    }

    /// The HTTP status that reports it: a server error, also where nothing was found.
    pub fn status(&self) -> (code: u16)
        ensures
            code == 500,
    {
        500
    }

    /// The text shown to the caller.
    pub fn message(&self) -> (message: String)
        ensures
            message@ == self.text(),
    {
        match self {
            QueryError::NoDataFound => "No data found for the given parameters.".to_owned(),
            QueryError::Store => "Error fetching data".to_owned(),
        }
    }
}

/// Why the backfill of one series ended early. It ends that series' backfill
/// for the cycle and no other's.
#[derive(Debug, Clone, Copy, PartialEq, Eq, Structural)]
pub enum IngestError {
    /// The window is empty or reversed: `from >= to`.
    InvalidWindow,
    /// The upstream service could not be reached or refused.
    UpstreamFetch,
    /// The upstream answer could not be read as interval records.
    UpstreamDecode,
    /// The store refused the insert.
    Store,
}

impl IngestError {
    /// The text written to the log.
    pub open spec fn text(self) -> Seq<char> {
        match self {
            IngestError::InvalidWindow => "Invalid time range: 'from' should be less than 'to'"@,
            IngestError::UpstreamFetch => "Failed to fetch data"@,
            IngestError::UpstreamDecode => "Failed to deserialize response"@,
            IngestError::Store => "Error Inserting Data into DB"@,
        }
    }

    /// The text written to the log.
    pub fn message(&self) -> (message: String)
        ensures
            message@ == self.text(),
    {
        match self {
            IngestError::InvalidWindow => "Invalid time range: 'from' should be less than 'to'".to_owned(),
            IngestError::UpstreamFetch => "Failed to fetch data".to_owned(),
            IngestError::UpstreamDecode => "Failed to deserialize response".to_owned(),
            IngestError::Store => "Error Inserting Data into DB".to_owned(),
        }
    }
}

} // verus!
