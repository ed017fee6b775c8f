use crate::column::{
    ColumnInfo, ColumnTypeDict, STORED_TYPE_DIFFERS, column_type_of, lemma_meta_span_prefix,
    lemma_meta_span_step, meta_span, meta_value, meta_width,
};
use crate::cursor::{ByteCursor, DecodeError, le16_at, lossy_text};
use crate::events::InitValue;
use crate::header::EventHeader;
use vstd::prelude::*;

verus! {

/// Offset, in a table-metadata body, of the length byte of the table name.
pub open spec fn tm_table_len_at(b: Seq<u8>) -> int {
    10 + b[8] as int
}

/// Offset, in a table-metadata body, of the column count byte.
pub open spec fn tm_count_at(b: Seq<u8>) -> int {
    tm_table_len_at(b) + 2 + b[tm_table_len_at(b)] as int
}

/// The column type codes of a table-metadata body.
pub open spec fn tm_codes(b: Seq<u8>) -> Seq<u8> {
    let c = tm_count_at(b);
    b.subrange(c + 1, c + 1 + b[c] as int)
}

/// Offset, in a table-metadata body, where the column metadata starts (after
/// the codes and the metadata length byte).
pub open spec fn tm_meta_at(b: Seq<u8>) -> int {
    tm_count_at(b) + 2 + b[tm_count_at(b)] as int
}

/// Whether a table-metadata body is complete in `b`: identifier, both names
/// with their terminators, codes, metadata length byte and every column's
/// metadata.
pub open spec fn tm_fits(b: Seq<u8>) -> bool {
    &&& b.len() >= 9
    &&& b.len() >= tm_table_len_at(b) + 1
    &&& b.len() >= tm_count_at(b) + 1
    &&& b.len() >= tm_meta_at(b) + meta_span(tm_codes(b))
}

/// The metadata bytes of column `i`, which start after those of the columns
/// before it.
pub open spec fn tm_column_bytes(b: Seq<u8>, i: int) -> Seq<u8> {
    let codes = tm_codes(b);
    let at = tm_meta_at(b);
    b.subrange(at + meta_span(codes.take(i)), at + meta_span(codes.take(i + 1)))
}

/// Whether `c` is what the body `b` says of column `i`.
pub open spec fn tm_column_matches(c: ColumnInfo, b: Seq<u8>, i: int) -> bool {
    &&& c.column_type == column_type_of(tm_codes(b)[i])
    &&& c.column_meta@ == meta_value(tm_codes(b)[i], tm_column_bytes(b, i))
}

/// Whether `t` is the table-metadata body at the start of `b`.
pub open spec fn tm_matches(t: TableMap, b: Seq<u8>) -> bool {
    &&& t.database_name@ == lossy_text(b.subrange(9, 9 + b[8] as int))
    &&& t.table_name@ == lossy_text(
        b.subrange(tm_table_len_at(b) + 1, tm_table_len_at(b) + 1 + b[tm_table_len_at(b)] as int),
    )
    &&& t.column_count == b[tm_count_at(b)]
    &&& t.column_info.len() == t.column_count
    &&& forall|i: int| 0 <= i < t.column_count ==> #[trigger] tm_column_matches(t.column_info@[i], b, i)
}

/// Bytes that a complete table-metadata body at the start of `b` takes.
pub open spec fn tm_size(b: Seq<u8>) -> int {
    tm_meta_at(b) + meta_span(tm_codes(b))
}

/// A table-metadata event: the names and the columns of a table.
#[derive(Debug)]
pub struct TableMap {
    pub database_name: String,
    pub table_name: String,
    pub column_count: u8,
    pub column_info: Vec<ColumnInfo>,
}

impl TableMap {
    /// A table with empty names and no columns.
    pub fn new() -> (r: TableMap)
        ensures
            r.database_name@.len() == 0,
            r.table_name@.len() == 0,
            r.column_count == 0,
            r.column_info.len() == 0,
    {
        TableMap {
            database_name: String::new(),
            table_name: String::new(),
            column_count: 0,
            column_info: Vec::new(),
        }
    }

    /// Reads the metadata of one column of type code `col_type`, as many bytes
    /// as its type family has.
    pub fn read_column_meta(buf: &mut ByteCursor, col_type: &u8) -> (r: Result<Vec<usize>, DecodeError>)
        ensures
            meta_width(*col_type) <= old(buf).rest().len() ==> (r matches Ok(v)
                && v@ == meta_value(*col_type, old(buf).rest().subrange(0, meta_width(*col_type) as int))
                && final(buf).advanced(old(buf), meta_width(*col_type) as int)),
            meta_width(*col_type) > old(buf).rest().len() ==> r == Err::<Vec<usize>, DecodeError>(
                DecodeError::TruncatedBody,
            ) && *final(buf) == *old(buf),
    {
        let ghost s = buf.rest();
        let column_type_info = ColumnTypeDict::from_type_code(col_type);
        let r = match column_type_info {
            ColumnTypeDict::MYSQL_TYPE_VAR_STRING | ColumnTypeDict::MYSQL_TYPE_VARCHAR => {
                Self::read_string_meta(buf)
            },
            ColumnTypeDict::MYSQL_TYPE_BLOB
            | ColumnTypeDict::MYSQL_TYPE_MEDIUM_BLOB
            | ColumnTypeDict::MYSQL_TYPE_LONG_BLOB
            | ColumnTypeDict::MYSQL_TYPE_TINY_BLOB
            | ColumnTypeDict::MYSQL_TYPE_JSON
            | ColumnTypeDict::MYSQL_TYPE_TIMESTAMP2
            | ColumnTypeDict::MYSQL_TYPE_DATETIME2
            | ColumnTypeDict::MYSQL_TYPE_TIME2
            | ColumnTypeDict::MYSQL_TYPE_FLOAT
            | ColumnTypeDict::MYSQL_TYPE_DOUBLE => Self::read_one_bytes(buf),
            ColumnTypeDict::MYSQL_TYPE_NEWDECIMAL => match Self::read_newdecimal(buf) {
                Ok(pair) => Ok(vec![pair[0], pair[1]]),
                Err(e) => Err(e),
            },
            ColumnTypeDict::MYSQL_TYPE_STRING => Self::read_string_type(buf, col_type),
            _ => Ok(vec![0usize]),
        };
        proof {
            let w = meta_width(*col_type) as int;
            if w <= s.len() {
                assert(r is Ok);
                let v = r->Ok_0;
                assert(v@ =~= meta_value(*col_type, s.subrange(0, w)));
            }
        }
        r
    }

    /// Reads one metadata byte and records it as it is.
    pub fn read_one_bytes(buf: &mut ByteCursor) -> (r: Result<Vec<usize>, DecodeError>)
        ensures
            1 <= old(buf).rest().len() ==> (r matches Ok(v) && v@ == seq![old(buf).rest()[0] as usize]
                && final(buf).advanced(old(buf), 1)),
            1 > old(buf).rest().len() ==> r == Err::<Vec<usize>, DecodeError>(DecodeError::TruncatedBody)
                && *final(buf) == *old(buf),
    {
        let v = buf.read_u8()? as usize;
        Ok(vec![v])
    }

    /// Reads the two-byte maximum length of a variable-length string column
    /// and records the width of its per-row length prefix: 2 above 255, else 1.
    pub fn read_string_meta(buf: &mut ByteCursor) -> (r: Result<Vec<usize>, DecodeError>)
        ensures
            2 <= old(buf).rest().len() ==> (r matches Ok(v) && v@ == (if le16_at(old(buf).rest(), 0)
                > 255 {
                seq![2usize]
            } else {
                seq![1usize]
            }) && final(buf).advanced(old(buf), 2)),
            2 > old(buf).rest().len() ==> r == Err::<Vec<usize>, DecodeError>(DecodeError::TruncatedBody)
                && *final(buf) == *old(buf),
    {
        let metadata = buf.read_u16_le()?;
        if metadata > 255 {
            Ok(vec![2usize])
        } else {
            Ok(vec![1usize])
        }
    }

    /// Reads the precision and the scale of a decimal column.
    pub fn read_newdecimal(buf: &mut ByteCursor) -> (r: Result<[usize; 2], DecodeError>)
        ensures
            2 <= old(buf).rest().len() ==> (r matches Ok(v) && v@ == seq![
                old(buf).rest()[0] as usize,
                old(buf).rest()[1] as usize,
            ] && final(buf).advanced(old(buf), 2)),
            2 > old(buf).rest().len() ==> r == Err::<[usize; 2], DecodeError>(DecodeError::TruncatedBody)
                && *final(buf) == *old(buf),
    {
        if buf.remaining() < 2 {
            return Err(DecodeError::TruncatedBody);
        }
        let precision = buf.read_u8()? as usize;
        let decimals = buf.read_u8()? as usize;
        let r = [precision, decimals];
        assert(r@ =~= seq![precision, decimals]);
        Ok(r)
    }

    /// Reads the stored type code and the metadata byte of a fixed-length
    /// string column. A stored type other than the declared one (an enum or a
    /// set) is recorded as the marker 65535 in place of the metadata byte.
    pub fn read_string_type(buf: &mut ByteCursor, col_type: &u8) -> (r: Result<Vec<usize>, DecodeError>)
        ensures
            2 <= old(buf).rest().len() ==> (r matches Ok(v) && v@ == (if old(buf).rest()[0] != *col_type {
                seq![STORED_TYPE_DIFFERS]
            } else {
                seq![old(buf).rest()[1] as usize]
            }) && final(buf).advanced(old(buf), 2)),
            2 > old(buf).rest().len() ==> r == Err::<Vec<usize>, DecodeError>(DecodeError::TruncatedBody)
                && *final(buf) == *old(buf),
    {
        if buf.remaining() < 2 {
            return Err(DecodeError::TruncatedBody);
        }
        let stored_type = buf.read_u8()?;
        let metadata = buf.read_u8()? as usize;
        if *col_type != stored_type {
            Ok(vec![STORED_TYPE_DIFFERS])
        } else {
            Ok(vec![metadata])
        }
    }
}

impl TableMap {
    /// Reads a table-metadata body; on failure the cursor may have moved over
    /// the same bytes.
    fn read_body(buf: &mut ByteCursor) -> (r: Result<TableMap, DecodeError>)
        ensures
            final(buf).data@ == old(buf).data@,
            r is Ok <==> tm_fits(old(buf).rest()),
            r is Err ==> r == Err::<TableMap, DecodeError>(DecodeError::TruncatedBody),
            r matches Ok(t) ==> tm_matches(t, old(buf).rest())
                && final(buf).advanced(old(buf), tm_size(old(buf).rest())),
    {
        let ghost s = buf.rest();
        let ghost data = buf.data@;
        let start = buf.pos;
        buf.skip(8)?;
        assert(buf.rest() =~= s.subrange(8, s.len() as int));
        let database_length = buf.read_u8()? as usize;
        assert(buf.rest() =~= s.subrange(9, s.len() as int));
        let ghost d = database_length as int;
        let database_name = buf.read_text(database_length)?;
        assert(buf.rest() =~= s.subrange(9 + d, s.len() as int));
        assert(s.subrange(9, s.len() as int).subrange(0, d) =~= s.subrange(9, 9 + d));
        buf.skip(1)?;
        assert(buf.rest() =~= s.subrange(10 + d, s.len() as int));
        let table_length = buf.read_u8()? as usize;
        let ghost t = table_length as int;
        assert(buf.rest() =~= s.subrange(11 + d, s.len() as int));
        let table_name = buf.read_text(table_length)?;
        assert(s.subrange(11 + d, s.len() as int).subrange(0, t) =~= s.subrange(11 + d, 11 + d + t));
        assert(buf.rest() =~= s.subrange(11 + d + t, s.len() as int));
        buf.skip(1)?;
        assert(buf.rest() =~= s.subrange(12 + d + t, s.len() as int));
        let column_count = buf.read_u8()?;
        assert(buf.rest() =~= s.subrange(13 + d + t, s.len() as int));
        let column_type_list = match buf.read_bytes(column_count as usize) {
            Ok(v) => v,
            Err(e) => {
                proof {
                    lemma_meta_span_prefix(tm_codes(s), 0);
                    assert(tm_codes(s).take(0) =~= Seq::<u8>::empty());
                }
                return Err(e);
            },
        };
        let ghost codes = tm_codes(s);
        assert(column_type_list@ =~= codes);
        let ghost m0 = tm_meta_at(s);
        assert(buf.rest() =~= s.subrange(m0 - 1, s.len() as int));
        match buf.skip(1) {
            Ok(_) => {},
            Err(e) => {
                proof {
                    lemma_meta_span_prefix(codes, 0);
                    assert(codes.take(0) =~= Seq::<u8>::empty());
                }
                return Err(e);
            },
        }
        assert(codes.take(0) =~= Seq::<u8>::empty());
        let mut column_info: Vec<ColumnInfo> = Vec::new();
        let mut i: usize = 0;
        while i < column_type_list.len()
            invariant
                0 <= i <= column_type_list@.len(),
                column_type_list@ == codes,
                codes == tm_codes(s),
                m0 == tm_meta_at(s),
                s.len() >= m0 + meta_span(codes.take(i as int)),
                buf.data@ == data,
                data == old(buf).data@,
                s == old(buf).rest(),
                buf.pos == start + m0 + meta_span(codes.take(i as int)),
                start <= data.len(),
                s == data.subrange(start as int, data.len() as int),
                column_info.len() == i,
                forall|j: int| 0 <= j < i ==> #[trigger] tm_column_matches(column_info@[j], s, j),
            decreases column_type_list@.len() - i,
        {
            let col_type = column_type_list[i];
            proof {
                lemma_meta_span_step(codes, i as int);
                lemma_meta_span_prefix(codes, i as int + 1);
            }
            let ghost at = m0 + meta_span(codes.take(i as int));
            assert(buf.rest() =~= s.subrange(at, s.len() as int));
            let col_meta = match Self::read_column_meta(buf, &col_type) {
                Ok(v) => v,
                Err(e) => {
                    return Err(e);
                },
            };
            assert(s.subrange(at, s.len() as int).subrange(0, meta_width(col_type) as int)
                =~= tm_column_bytes(s, i as int));
            column_info.push(
                ColumnInfo { column_type: ColumnTypeDict::from_type_code(&col_type), column_meta: col_meta },
            );
            i = i + 1;
        }
        assert(codes.take(codes.len() as int) =~= codes);
        Ok(TableMap { database_name, table_name, column_count, column_info })
    }
}

impl InitValue for TableMap {
    /// Skips the table identifier; then the database name, the table name, the
    /// column count, one type code per column, the metadata length byte
    /// (skipped: each column's metadata is as long as its type says) and each
    /// column's metadata in order. On failure the cursor does not move.
    fn read_event(header: &EventHeader, buf: &mut ByteCursor) -> (r: Result<TableMap, DecodeError>)
        ensures
            r is Ok <==> tm_fits(old(buf).rest()),
            r is Err ==> r == Err::<TableMap, DecodeError>(DecodeError::TruncatedBody)
                && final(buf).advanced(old(buf), 0),
            r matches Ok(t) ==> tm_matches(t, old(buf).rest())
                && final(buf).advanced(old(buf), tm_size(old(buf).rest())),
    {
        let start = buf.pos;
        let r = Self::read_body(buf);
        if r.is_err() {
            buf.pos = start;
        }
        r
    }
}

} // verus!
