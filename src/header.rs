use crate::cursor::{ByteCursor, DecodeError, le16_at, le32_at};
use vstd::prelude::*;

verus! {

/// The kind of a binlog event, from the type byte of its header.
#[allow(non_camel_case_types)]
#[derive(Debug, Clone, Copy, PartialEq, Eq, Structural)]
pub enum BinlogEvent {
    QueryEvent,
    RotateLogEvent,
    TableMapEvent,
    GtidEvent,
    UpdateEvent,
    WriteEvent,
    DeleteEvent,
    XidEvent,
    XAPREPARELOGEVENT,
    UNKNOWNEVENT,
}

/// The event kind that a header type byte stands for.
pub open spec fn event_kind_of(code: u8) -> BinlogEvent {
    if code == 4 {
        BinlogEvent::RotateLogEvent
    } else if code == 2 {
        BinlogEvent::QueryEvent
    } else if code == 33 {
        BinlogEvent::GtidEvent
    } else if code == 19 {
        BinlogEvent::TableMapEvent
    } else if code == 30 {
        BinlogEvent::WriteEvent
    } else if code == 31 {
        BinlogEvent::UpdateEvent
    } else if code == 32 {
        BinlogEvent::DeleteEvent
    } else if code == 16 {
        BinlogEvent::XidEvent
    } else if code == 38 {
        BinlogEvent::XAPREPARELOGEVENT
    } else {
        BinlogEvent::UNKNOWNEVENT
    }
}

/// Settings of a decoding session.
pub struct Config {
    /// The session mode; `"repl"` means the stream comes from posing as a
    /// replica, where each event is preceded by one marker byte.
    pub conntype: String,
}

impl Config {
    pub open spec fn is_repl(&self) -> bool {
        self.conntype@ == seq!['r', 'e', 'p', 'l']
    }

    /// Whether the session mode is `"repl"`.
    pub fn repl_mode(&self) -> (r: bool)
        ensures
            r == self.is_repl(),
    {
        let s = self.conntype.as_str();
        if s.unicode_len() != 4 {
            return false;
        }
        let r = s.get_char(0) == 'r' && s.get_char(1) == 'e' && s.get_char(2) == 'p'
            && s.get_char(3) == 'l';
        assert(r ==> self.conntype@ =~= seq!['r', 'e', 'p', 'l']);
        r
    }
}

/// The fixed framing header of an event.
#[derive(Debug, Clone, Copy, PartialEq, Eq, Structural)]
pub struct EventHeader {
    pub timestamp: u32,
    pub type_code: BinlogEvent,
    pub server_id: u32,
    pub event_length: u32,
    pub next_position: u32,
    pub flags: u16,
    /// Bytes taken by the header: 19, or 20 with the marker byte.
    pub header_length: u8,
}

/// Bytes that the header takes in a session of the given mode.
pub open spec fn header_size(repl: bool) -> nat {
    if repl {
        20
    } else {
        19
    }
}

/// The header at the start of `s`, or `None` when `s` is too short for it or
/// it declares an event shorter than itself.
pub open spec fn parse_header(s: Seq<u8>, repl: bool) -> Option<EventHeader> {
    let hl = header_size(repl);
    let m: int = if repl {
        1
    } else {
        0
    };
    if s.len() < hl || le32_at(s, m + 9) < hl {
        None
    } else {
        Some(
            EventHeader {
                timestamp: le32_at(s, m) as u32,
                type_code: event_kind_of(s[m + 4]),
                server_id: le32_at(s, m + 5) as u32,
                event_length: le32_at(s, m + 9) as u32,
                next_position: le32_at(s, m + 13) as u32,
                flags: le16_at(s, m + 17) as u16,
                header_length: hl as u8,
            },
        )
    }
}

/// Reads the header at the position of a cursor.
pub trait InitHeader: Sized {
    fn new(buf: &mut ByteCursor, conf: &Config) -> Result<Self, DecodeError>;
}

impl EventHeader {
    /// Classifies a header type byte; no byte at all is an unknown event.
    pub fn get_type_code_event(type_code: &Option<u8>) -> (r: BinlogEvent)
        ensures
            r == (match *type_code {
                Some(c) => event_kind_of(c),
                None => BinlogEvent::UNKNOWNEVENT,
            }),
    {
        match *type_code {
            Some(4) => BinlogEvent::RotateLogEvent,
            Some(2) => BinlogEvent::QueryEvent,
            Some(33) => BinlogEvent::GtidEvent,
            Some(19) => BinlogEvent::TableMapEvent,
            Some(30) => BinlogEvent::WriteEvent,
            Some(31) => BinlogEvent::UpdateEvent,
            Some(32) => BinlogEvent::DeleteEvent,
            Some(16) => BinlogEvent::XidEvent,
            Some(38) => BinlogEvent::XAPREPARELOGEVENT,
            _ => BinlogEvent::UNKNOWNEVENT,
        }
    }
}

impl InitHeader for EventHeader {
    /// Skips the marker byte in a `"repl"` session, then reads timestamp, type
    /// byte, server id, event length, next position and flags, little-endian.
    /// On failure the cursor does not move.
    fn new(buf: &mut ByteCursor, conf: &Config) -> (r: Result<EventHeader, DecodeError>)
        ensures
            r matches Ok(h) ==> parse_header(old(buf).rest(), conf.is_repl()) == Some(h)
                && final(buf).advanced(old(buf), h.header_length as int),
            r is Err <==> parse_header(old(buf).rest(), conf.is_repl()) is None,
            r is Err ==> r == Err::<EventHeader, DecodeError>(DecodeError::TruncatedHeader)
                && final(buf).advanced(old(buf), 0),
    {
        let repl = conf.repl_mode();
        let header_length: u8 = if repl {
            20
        } else {
            19
        };
        if buf.remaining() < header_length as usize {
            return Err(DecodeError::TruncatedHeader);
        }
        let start = buf.pos;
        let ghost s = buf.rest();
        let ghost m: int = if repl {
            1
        } else {
            0
        };
        if repl {
            let _ = buf.skip(1);
        }
        assert(buf.rest() =~= s.subrange(m, s.len() as int));
        let timestamp = buf.read_u32_le().unwrap();
        assert(buf.rest() =~= s.subrange(m + 4, s.len() as int));
        let code = buf.read_u8().unwrap();
        assert(buf.rest() =~= s.subrange(m + 5, s.len() as int));
        let server_id = buf.read_u32_le().unwrap();
        assert(buf.rest() =~= s.subrange(m + 9, s.len() as int));
        let event_length = buf.read_u32_le().unwrap();
        assert(buf.rest() =~= s.subrange(m + 13, s.len() as int));
        let next_position = buf.read_u32_le().unwrap();
        assert(buf.rest() =~= s.subrange(m + 17, s.len() as int));
        let flags = buf.read_u16_le().unwrap();
        if event_length < header_length as u32 {
            buf.pos = start;
            return Err(DecodeError::TruncatedHeader);
        }
        let type_code = Self::get_type_code_event(&Some(code));
        Ok(EventHeader {
            timestamp,
            type_code,
            server_id,
            event_length,
            next_position,
            flags,
            header_length,
        })
    }
}

} // verus!
