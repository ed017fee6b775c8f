use crate::cursor::{ByteCursor, DecodeError, le64_at, lossy_text};
use crate::events::{
    GtidEvent, InitValue, QueryEvent, RotateLog, XidEvent, body_size, gtid_error, gtid_matches,
    gtid_size, query_error, query_matches, rotate_error,
};
use crate::header::{BinlogEvent, Config, EventHeader, InitHeader, parse_header};
use crate::table_map::{TableMap, tm_fits, tm_matches, tm_size};
use vstd::prelude::*;

verus! {

/// The decoded body of an event, by kind.
#[derive(Debug)]
pub enum EventBody {
    Query(QueryEvent),
    Rotate(RotateLog),
    TableMap(TableMap),
    Gtid(GtidEvent),
    Xid(XidEvent),
    /// A row insert, update or delete event: its body is left to the row
    /// decoder, and the cursor stays where it was.
    Rows,
}

/// Whether `r` is what decoding the body at the start of `b`, under header
/// `h`, gives, and `used` the number of bytes that it moves over.
pub open spec fn body_decoded(h: EventHeader, b: Seq<u8>, r: Result<EventBody, DecodeError>, used: int) -> bool {
    match h.type_code {
        BinlogEvent::QueryEvent => match query_error(b, h) {
            Some(e) => r == Err::<EventBody, DecodeError>(e) && used == 0,
            None => (r matches Ok(EventBody::Query(q)) && query_matches(q, b, h)) && used == body_size(h),
        },
        BinlogEvent::XidEvent => if b.len() < 8 {
            r == Err::<EventBody, DecodeError>(DecodeError::TruncatedBody) && used == 0
        } else {
            (r matches Ok(EventBody::Xid(x)) && x.xid == le64_at(b, 0)) && used == 8
        },
        BinlogEvent::RotateLogEvent => match rotate_error(b, h) {
            Some(e) => r == Err::<EventBody, DecodeError>(e) && used == 0,
            None => (r matches Ok(EventBody::Rotate(l)) && l.binlog_file@ == lossy_text(
                b.subrange(8, body_size(h)),
            )) && used == body_size(h),
        },
        BinlogEvent::GtidEvent => match gtid_error(b, h) {
            Some(e) => r == Err::<EventBody, DecodeError>(e) && used == 0,
            None => (r matches Ok(EventBody::Gtid(g)) && gtid_matches(g, b, h)) && used == gtid_size(h),
        },
        BinlogEvent::TableMapEvent => if tm_fits(b) {
            (r matches Ok(EventBody::TableMap(t)) && tm_matches(t, b)) && used == tm_size(b)
        } else {
            r == Err::<EventBody, DecodeError>(DecodeError::TruncatedBody) && used == 0
        },
        BinlogEvent::UpdateEvent | BinlogEvent::WriteEvent | BinlogEvent::DeleteEvent => {
            r matches Ok(EventBody::Rows) && used == 0
        },
        _ => r == Err::<EventBody, DecodeError>(DecodeError::UnsupportedEventKind) && used == 0,
    }
}

/// Decodes the body of the event whose header is `header`, by its kind.
pub fn read_body(header: &EventHeader, buf: &mut ByteCursor) -> (r: Result<EventBody, DecodeError>)
    ensures
        final(buf).data@ == old(buf).data@,
        body_decoded(*header, old(buf).rest(), r, final(buf).pos - old(buf).pos),
{
    match header.type_code {
        BinlogEvent::QueryEvent => match QueryEvent::read_event(header, buf) {
            Ok(q) => Ok(EventBody::Query(q)),
            Err(e) => Err(e),
        },
        BinlogEvent::XidEvent => match XidEvent::read_event(header, buf) {
            Ok(x) => Ok(EventBody::Xid(x)),
            Err(e) => Err(e),
        },
        BinlogEvent::RotateLogEvent => match RotateLog::read_event(header, buf) {
            Ok(l) => Ok(EventBody::Rotate(l)),
            Err(e) => Err(e),
        },
        BinlogEvent::GtidEvent => match GtidEvent::read_event(header, buf) {
            Ok(g) => Ok(EventBody::Gtid(g)),
            Err(e) => Err(e),
        },
        BinlogEvent::TableMapEvent => match TableMap::read_event(header, buf) {
            Ok(t) => Ok(EventBody::TableMap(t)),
            Err(e) => Err(e),
        },
        BinlogEvent::UpdateEvent | BinlogEvent::WriteEvent | BinlogEvent::DeleteEvent => {
            Ok(EventBody::Rows)
        },
        BinlogEvent::XAPREPARELOGEVENT | BinlogEvent::UNKNOWNEVENT => {
            Err(DecodeError::UnsupportedEventKind)
        },
    }
}

/// Decodes one event, header then body, at the position of a cursor. When the
/// header cannot be read the cursor does not move; when the body cannot, it
/// stands right after the header.
pub fn read_next_event(buf: &mut ByteCursor, conf: &Config) -> (r: Result<(EventHeader, EventBody), DecodeError>)
    ensures
        final(buf).data@ == old(buf).data@,
        parse_header(old(buf).rest(), conf.is_repl()) is None ==> r == Err::<
            (EventHeader, EventBody),
            DecodeError,
        >(DecodeError::TruncatedHeader) && final(buf).pos == old(buf).pos,
        parse_header(old(buf).rest(), conf.is_repl()) matches Some(h) ==> {
            let b = old(buf).rest().subrange(h.header_length as int, old(buf).rest().len() as int);
            let moved = final(buf).pos - old(buf).pos - h.header_length;
            &&& r matches Ok(pair) ==> pair.0 == h && body_decoded(h, b, Ok(pair.1), moved)
            &&& r matches Err(e) ==> body_decoded(h, b, Err(e), moved)
        },
{
    let ghost s = buf.rest();
    let header = EventHeader::new(buf, conf)?;
    assert(buf.rest() =~= s.subrange(header.header_length as int, s.len() as int));
    let body = read_body(&header, buf)?;
    Ok((header, body))
}

} // verus!
