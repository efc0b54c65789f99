//! The decisions of the ingest and egress endpoints: which requests reach the
//! cache, what status each answer carries, and how an ingested chunk or the
//! end of a body is put into a list cell.

use vstd::prelude::*;
use crate::list_cache::Cell as ListCell;
use crate::payload::{bytes_as_slice, bytes_content, bytes_copy_from_slice};

verus! {

pub const STATUS_OK: u16 = 200;

pub const STATUS_BAD_REQUEST: u16 = 400;

pub const STATUS_NOT_FOUND: u16 = 404;

pub const STATUS_METHOD_NOT_ALLOWED: u16 = 405;

pub const STATUS_INTERNAL_SERVER_ERROR: u16 = 500;

/// The request methods the endpoints tell apart.
#[derive(PartialEq, Eq, Structural, Clone, Copy)]
pub enum Method {
    Get,
    Put,
    Post,
    Delete,
    Other,
}

/// What the ingest endpoint does with a request.
#[derive(PartialEq, Eq, Structural, Clone, Copy)]
pub enum IngestAction {
    /// Stream the body into the cell of the request path, then answer 200.
    Ingest,
    /// Answer at once with this status, touching nothing.
    Respond(u16),
}

/// Only `PUT` writes; `DELETE` is accepted and ignored; anything else is
/// refused.
pub fn ingest_action(method: Method) -> (r: IngestAction)
    ensures
        method == Method::Put ==> r == IngestAction::Ingest,
        method == Method::Delete ==> r == IngestAction::Respond(STATUS_OK),
        method != Method::Put && method != Method::Delete ==> r == IngestAction::Respond(
            STATUS_METHOD_NOT_ALLOWED,
        ),
{
    match method {
        Method::Put => IngestAction::Ingest,
        Method::Delete => IngestAction::Respond(STATUS_OK),
        _ => IngestAction::Respond(STATUS_METHOD_NOT_ALLOWED),
    }
}

/// How a cache lookup for a `GET` went.
#[derive(PartialEq, Eq, Structural, Clone, Copy)]
pub enum Lookup {
    Found,
    Missing,
    Failed,
}

/// The status of a `GET` answer.
pub fn egress_status(lookup: Lookup) -> (r: u16)
    ensures
        lookup == Lookup::Found ==> r == STATUS_OK,
        lookup == Lookup::Missing ==> r == STATUS_NOT_FOUND,
        lookup == Lookup::Failed ==> r == STATUS_INTERNAL_SERVER_ERROR,
{
    match lookup {
        Lookup::Found => STATUS_OK,
        Lookup::Missing => STATUS_NOT_FOUND,
        Lookup::Failed => STATUS_INTERNAL_SERVER_ERROR,
    }
}

/// How the list ingester stores chunks.
pub struct ListIngester {
    /// Store a private copy of each chunk instead of sharing the received buffer.
    pub copy_before_insert: bool,
}

impl ListIngester {
    pub fn new(copy_before_insert: bool) -> (r: ListIngester)
        ensures
            r.copy_before_insert == copy_before_insert,
    {
        ListIngester { copy_before_insert }
    }

    /// Appends one received chunk to `cell`, copied or shared as configured.
    pub fn ingest_frame(&self, cell: &mut ListCell, data: bytes::Bytes)
        ensures
            final(cell)@ == old(cell)@.push(Some(bytes_content(data))),
    {
        let stored = if self.copy_before_insert {
            bytes_copy_from_slice(bytes_as_slice(&data))
        } else {
            data
        };
        cell.append(Some(stored));
    }

    /// Ends the segment: appends the sentinel after the received chunks.
    pub fn finish(&self, cell: &mut ListCell)
        ensures
            final(cell)@ == old(cell)@.push(None),
    {
        cell.append(None);
    }
}

/// Drops every received frame; for measuring the transport alone.
pub struct SimpleIngester {}

impl SimpleIngester {
    pub fn new() -> (r: SimpleIngester) {
        SimpleIngester {  }
    }
}

} // verus!
