use crate::cursor::{ByteCursor, DecodeError, Tell, le16_at, le32_at, le64_at, lossy_text};
use crate::header::EventHeader;
use uuid::Uuid;
use vstd::prelude::*;

verus! {

/// Reads the body of an event whose header has been read, from a cursor
/// standing right after that header.
pub trait InitValue: Sized {
    fn read_event(header: &EventHeader, buf: &mut ByteCursor) -> Result<Self, DecodeError>;
}

#[verifier::external_type_specification]
#[verifier::external_body]
pub struct ExUuid(Uuid);

/// The identifier that sixteen bytes make.
pub uninterp spec fn uuid_of(b: Seq<u8>) -> Uuid;

/// Relies on uuid's `Uuid::from_bytes`: the identifier is made of the sixteen
/// bytes as given, and of nothing else.
#[verifier::external_body]
fn uuid_from_bytes(b: &[u8]) -> (r: Uuid)
    requires
        b@.len() == 16,
    ensures
        r == uuid_of(b@),
{
    Uuid::from_bytes(b.try_into().unwrap())
}

/// Bytes that a body takes by the header's count: event length less header length.
pub open spec fn body_size(header: EventHeader) -> int {
    header.event_length as int - header.header_length as int
}

/// Offset, in a query body, of the statement text: after the thirteen fixed
/// bytes, the status variables, the database name and its terminator.
pub open spec fn query_command_at(b: Seq<u8>) -> int {
    14 + le16_at(b, 11) + b[8] as int
}

/// The bytes of the database name in a query body.
pub open spec fn query_database_bytes(b: Seq<u8>) -> Seq<u8> {
    b.subrange(query_command_at(b) - 1 - b[8] as int, query_command_at(b) - 1)
}

/// The bytes of the statement text in a query body: the rest of the event.
pub open spec fn query_command_bytes(b: Seq<u8>, header: EventHeader) -> Seq<u8> {
    b.subrange(query_command_at(b), body_size(header))
}

/// Why the query body at the start of `b` cannot be decoded, if it cannot.
pub open spec fn query_error(b: Seq<u8>, header: EventHeader) -> Option<DecodeError> {
    if b.len() < 13 || b.len() < query_command_at(b) {
        Some(DecodeError::TruncatedBody)
    } else if body_size(header) < query_command_at(b) {
        Some(DecodeError::NegativeRemainingLength)
    } else if b.len() < body_size(header) {
        Some(DecodeError::TruncatedBody)
    } else {
        None
    }
}

/// Whether `q` is the query body at the start of `b`.
pub open spec fn query_matches(q: QueryEvent, b: Seq<u8>, header: EventHeader) -> bool {
    &&& q.thread_id == le32_at(b, 0)
    &&& q.execute_seconds == le32_at(b, 4)
    &&& q.database@ == lossy_text(query_database_bytes(b))
    &&& q.command@ == lossy_text(query_command_bytes(b, header))
}

/// Why the rotation body at the start of `b` cannot be decoded, if it cannot.
pub open spec fn rotate_error(b: Seq<u8>, header: EventHeader) -> Option<DecodeError> {
    if b.len() < 8 {
        Some(DecodeError::TruncatedBody)
    } else if body_size(header) < 8 {
        Some(DecodeError::NegativeRemainingLength)
    } else if b.len() < body_size(header) {
        Some(DecodeError::TruncatedBody)
    } else {
        None
    }
}

/// Whether the body declares room for the two commit-order numbers after the
/// flag byte, the source identifier and the transaction number.
pub open spec fn gtid_has_order(header: EventHeader) -> bool {
    body_size(header) >= 41
}

/// Why the transaction-identifier body at the start of `b` cannot be decoded,
/// if it cannot.
pub open spec fn gtid_error(b: Seq<u8>, header: EventHeader) -> Option<DecodeError> {
    if b.len() < 25 || (gtid_has_order(header) && b.len() < 41) {
        Some(DecodeError::TruncatedBody)
    } else {
        None
    }
}

/// Whether `g` is the transaction-identifier body at the start of `b`.
pub open spec fn gtid_matches(g: GtidEvent, b: Seq<u8>, header: EventHeader) -> bool {
    &&& g.gtid == uuid_of(b.subrange(1, 17))
    &&& g.gno_id == le64_at(b, 17)
    &&& if gtid_has_order(header) {
        &&& g.last_committed == le64_at(b, 25)
        &&& g.sequence_number == le64_at(b, 33)
        &&& !g.legacy_format
    } else {
        &&& g.last_committed == 0
        &&& g.sequence_number == 0
        &&& g.legacy_format
    }
}

/// Bytes that a decoded transaction-identifier body takes.
pub open spec fn gtid_size(header: EventHeader) -> int {
    if gtid_has_order(header) {
        41
    } else {
        25
    }
}

/// A statement event.
#[derive(Debug)]
pub struct QueryEvent {
    pub thread_id: u32,
    pub execute_seconds: u32,
    pub database: String,
    pub command: String,
}

impl InitValue for QueryEvent {
    /// Thread id, execution time, database name length, error code (dropped),
    /// status variable length; then the status variables (skipped), the
    /// database name and its terminator; the statement text is the rest of the
    /// event. On failure the cursor does not move.
    fn read_event(header: &EventHeader, buf: &mut ByteCursor) -> (r: Result<QueryEvent, DecodeError>)
        ensures
            r is Err <==> query_error(old(buf).rest(), *header) is Some,
            r matches Err(e) ==> query_error(old(buf).rest(), *header) == Some(e)
                && final(buf).advanced(old(buf), 0),
            r matches Ok(q) ==> query_matches(q, old(buf).rest(), *header)
                && final(buf).advanced(old(buf), body_size(*header)),
    {
        let ghost s = buf.rest();
        let start = buf.pos;
        let body_start = buf.tell();
        if buf.remaining() < 13 {
            return Err(DecodeError::TruncatedBody);
        }
        let thread_id = buf.read_u32_le()?;
        assert(buf.rest() =~= s.subrange(4, s.len() as int));
        let execute_seconds = buf.read_u32_le()?;
        assert(buf.rest() =~= s.subrange(8, s.len() as int));
        let database_length = buf.read_u8()?;
        assert(buf.rest() =~= s.subrange(9, s.len() as int));
        let _error_code = buf.read_u16_le()?;
        assert(buf.rest() =~= s.subrange(11, s.len() as int));
        let variable_block_length = buf.read_u16_le()?;
        assert(buf.rest() =~= s.subrange(13, s.len() as int));
        let tail = variable_block_length as usize + database_length as usize + 1;
        if buf.remaining() < tail {
            buf.pos = start;
            return Err(DecodeError::TruncatedBody);
        }
        buf.skip(variable_block_length as usize)?;
        let ghost v = variable_block_length as int;
        assert(buf.rest() =~= s.subrange(13 + v, s.len() as int));
        let database = buf.read_text(database_length as usize)?;
        assert(s.subrange(13 + v, s.len() as int).subrange(0, database_length as int)
            =~= s.subrange(13 + v, 13 + v + database_length));
        assert(buf.rest() =~= s.subrange(13 + v + database_length, s.len() as int));
        buf.skip(1)?;
        let consumed = header.header_length as u64 + (buf.tell() - body_start);
        if (header.event_length as u64) < consumed {
            buf.pos = start;
            return Err(DecodeError::NegativeRemainingLength);
        }
        let command_length = (header.event_length as u64 - consumed) as usize;
        if buf.remaining() < command_length {
            buf.pos = start;
            return Err(DecodeError::TruncatedBody);
        }
        assert(buf.rest() =~= s.subrange(query_command_at(s), s.len() as int));
        let command = buf.read_text(command_length)?;
        assert(s.subrange(query_command_at(s), s.len() as int).subrange(0, command_length as int)
            =~= s.subrange(query_command_at(s), body_size(*header)));
        Ok(QueryEvent { thread_id, execute_seconds, database, command })
    }
}

/// A transaction commit event.
#[derive(Debug)]
pub struct XidEvent {
    pub xid: u64,
}

impl InitValue for XidEvent {
    /// One eight-byte identifier. On failure the cursor does not move.
    fn read_event(header: &EventHeader, buf: &mut ByteCursor) -> (r: Result<XidEvent, DecodeError>)
        ensures
            r is Err <==> old(buf).rest().len() < 8,
            r is Err ==> r == Err::<XidEvent, DecodeError>(DecodeError::TruncatedBody)
                && final(buf).advanced(old(buf), 0),
            r matches Ok(x) ==> x.xid == le64_at(old(buf).rest(), 0) && final(buf).advanced(old(buf), 8),
    {
        let xid = buf.read_u64_le()?;
        Ok(XidEvent { xid })
    }
}

/// A log rotation event: the name of the next log file.
#[derive(Debug)]
pub struct RotateLog {
    pub binlog_file: String,
}

impl InitValue for RotateLog {
    /// Skips the eight-byte start position; the file name is the rest of the
    /// event. On failure the cursor does not move.
    fn read_event(header: &EventHeader, buf: &mut ByteCursor) -> (r: Result<RotateLog, DecodeError>)
        ensures
            r is Err <==> rotate_error(old(buf).rest(), *header) is Some,
            r matches Err(e) ==> rotate_error(old(buf).rest(), *header) == Some(e)
                && final(buf).advanced(old(buf), 0),
            r matches Ok(l) ==> l.binlog_file@ == lossy_text(old(buf).rest().subrange(8, body_size(*header)))
                && final(buf).advanced(old(buf), body_size(*header)),
    {
        let ghost s = buf.rest();
        let start = buf.pos;
        let fixed_length: usize = 8;
        buf.skip(fixed_length)?;
        assert(buf.rest() =~= s.subrange(8, s.len() as int));
        if (header.event_length as usize) < header.header_length as usize + fixed_length {
            buf.pos = start;
            return Err(DecodeError::NegativeRemainingLength);
        }
        let num = header.event_length as usize - header.header_length as usize - fixed_length;
        if buf.remaining() < num {
            buf.pos = start;
            return Err(DecodeError::TruncatedBody);
        }
        let binlog_file = buf.read_text(num)?;
        assert(s.subrange(8, s.len() as int).subrange(0, num as int) =~= s.subrange(8, body_size(*header)));
        Ok(RotateLog { binlog_file })
    }
}

/// A global transaction identifier event.
#[derive(Debug)]
pub struct GtidEvent {
    pub gtid: Uuid,
    pub gno_id: u64,
    pub last_committed: u64,
    pub sequence_number: u64,
    /// The event is of the older format without the two commit-order numbers,
    /// which are then zero.
    pub legacy_format: bool,
}

impl InitValue for GtidEvent {
    /// Skips the flag byte; then the sixteen-byte source identifier, the
    /// transaction number and, where the event has room for them, the last
    /// committed and the sequence numbers. On failure the cursor does not move.
    fn read_event(header: &EventHeader, buf: &mut ByteCursor) -> (r: Result<GtidEvent, DecodeError>)
        ensures
            r is Err <==> gtid_error(old(buf).rest(), *header) is Some,
            r matches Err(e) ==> gtid_error(old(buf).rest(), *header) == Some(e)
                && final(buf).advanced(old(buf), 0),
            r matches Ok(g) ==> gtid_matches(g, old(buf).rest(), *header)
                && final(buf).advanced(old(buf), gtid_size(*header)),
    {
        let ghost s = buf.rest();
        let start = buf.pos;
        let has_order = header.event_length as u64 >= header.header_length as u64 + 41;
        let needed: usize = if has_order {
            41
        } else {
            25
        };
        if buf.remaining() < needed {
            return Err(DecodeError::TruncatedBody);
        }
        buf.skip(1)?;
        assert(buf.rest() =~= s.subrange(1, s.len() as int));
        let sid = buf.read_bytes(16)?;
        assert(buf.rest() =~= s.subrange(17, s.len() as int));
        assert(sid@ =~= s.subrange(1, 17));
        let gtid = uuid_from_bytes(sid.as_slice());
        let gno_id = buf.read_u64_le()?;
        assert(buf.rest() =~= s.subrange(25, s.len() as int));
        if !has_order {
            return Ok(GtidEvent { gtid, gno_id, last_committed: 0, sequence_number: 0, legacy_format: true });
        }
        let last_committed = buf.read_u64_le()?;
        assert(buf.rest() =~= s.subrange(33, s.len() as int));
        let sequence_number = buf.read_u64_le()?;
        Ok(GtidEvent { gtid, gno_id, last_committed, sequence_number, legacy_format: false })
    }
}

} // verus!
