use crate::cursor::le16_at;
use vstd::prelude::*;

verus! {

/// MySQL column types, by the code that a table-metadata event gives them.
#[allow(non_camel_case_types)]
#[derive(Debug, Clone, Copy, PartialEq, Eq, Structural)]
pub enum ColumnTypeDict {
    MYSQL_TYPE_DECIMAL,
    MYSQL_TYPE_TINY,
    MYSQL_TYPE_SHORT,
    MYSQL_TYPE_LONG,
    MYSQL_TYPE_FLOAT,
    MYSQL_TYPE_DOUBLE,
    MYSQL_TYPE_NULL,
    MYSQL_TYPE_TIMESTAMP,
    MYSQL_TYPE_LONGLONG,
    MYSQL_TYPE_INT24,
    MYSQL_TYPE_DATE,
    MYSQL_TYPE_TIME,
    MYSQL_TYPE_DATETIME,
    MYSQL_TYPE_YEAR,
    MYSQL_TYPE_NEWDATE,
    MYSQL_TYPE_VARCHAR,
    MYSQL_TYPE_BIT,
    MYSQL_TYPE_TIMESTAMP2,
    MYSQL_TYPE_DATETIME2,
    MYSQL_TYPE_TIME2,
    MYSQL_TYPE_JSON,
    MYSQL_TYPE_NEWDECIMAL,
    MYSQL_TYPE_ENUM,
    MYSQL_TYPE_SET,
    MYSQL_TYPE_TINY_BLOB,
    MYSQL_TYPE_MEDIUM_BLOB,
    MYSQL_TYPE_LONG_BLOB,
    MYSQL_TYPE_BLOB,
    MYSQL_TYPE_VAR_STRING,
    MYSQL_TYPE_STRING,
    MYSQL_TYPE_GEOMETRY,
    /// A code that no type above has.
    MYSQL_TYPE_UNRECOGNIZED,
}

/// The column type that a type code stands for.
pub open spec fn column_type_of(code: u8) -> ColumnTypeDict {
    match code {
        0 => ColumnTypeDict::MYSQL_TYPE_DECIMAL,
        1 => ColumnTypeDict::MYSQL_TYPE_TINY,
        2 => ColumnTypeDict::MYSQL_TYPE_SHORT,
        3 => ColumnTypeDict::MYSQL_TYPE_LONG,
        4 => ColumnTypeDict::MYSQL_TYPE_FLOAT,
        5 => ColumnTypeDict::MYSQL_TYPE_DOUBLE,
        6 => ColumnTypeDict::MYSQL_TYPE_NULL,
        7 => ColumnTypeDict::MYSQL_TYPE_TIMESTAMP,
        8 => ColumnTypeDict::MYSQL_TYPE_LONGLONG,
        9 => ColumnTypeDict::MYSQL_TYPE_INT24,
        10 => ColumnTypeDict::MYSQL_TYPE_DATE,
        11 => ColumnTypeDict::MYSQL_TYPE_TIME,
        12 => ColumnTypeDict::MYSQL_TYPE_DATETIME,
        13 => ColumnTypeDict::MYSQL_TYPE_YEAR,
        14 => ColumnTypeDict::MYSQL_TYPE_NEWDATE,
        15 => ColumnTypeDict::MYSQL_TYPE_VARCHAR,
        16 => ColumnTypeDict::MYSQL_TYPE_BIT,
        17 => ColumnTypeDict::MYSQL_TYPE_TIMESTAMP2,
        18 => ColumnTypeDict::MYSQL_TYPE_DATETIME2,
        19 => ColumnTypeDict::MYSQL_TYPE_TIME2,
        245 => ColumnTypeDict::MYSQL_TYPE_JSON,
        246 => ColumnTypeDict::MYSQL_TYPE_NEWDECIMAL,
        247 => ColumnTypeDict::MYSQL_TYPE_ENUM,
        248 => ColumnTypeDict::MYSQL_TYPE_SET,
        249 => ColumnTypeDict::MYSQL_TYPE_TINY_BLOB,
        250 => ColumnTypeDict::MYSQL_TYPE_MEDIUM_BLOB,
        251 => ColumnTypeDict::MYSQL_TYPE_LONG_BLOB,
        252 => ColumnTypeDict::MYSQL_TYPE_BLOB,
        253 => ColumnTypeDict::MYSQL_TYPE_VAR_STRING,
        254 => ColumnTypeDict::MYSQL_TYPE_STRING,
        255 => ColumnTypeDict::MYSQL_TYPE_GEOMETRY,
        _ => ColumnTypeDict::MYSQL_TYPE_UNRECOGNIZED,
    }
}

/// How the metadata of a column is laid out, by family of its type.
pub enum MetaShape {
    /// Two bytes, a maximum length.
    LengthPrefix,
    /// One byte, kept as it is.
    OneByte,
    /// Two bytes, precision and scale.
    Decimal,
    /// Two bytes, the stored type code and one metadata byte.
    StoredType,
    /// No metadata.
    Absent,
}

pub open spec fn meta_shape(t: ColumnTypeDict) -> MetaShape {
    match t {
        ColumnTypeDict::MYSQL_TYPE_VAR_STRING | ColumnTypeDict::MYSQL_TYPE_VARCHAR => {
            MetaShape::LengthPrefix
        },
        ColumnTypeDict::MYSQL_TYPE_BLOB
        | ColumnTypeDict::MYSQL_TYPE_MEDIUM_BLOB
        | ColumnTypeDict::MYSQL_TYPE_LONG_BLOB
        | ColumnTypeDict::MYSQL_TYPE_TINY_BLOB
        | ColumnTypeDict::MYSQL_TYPE_JSON
        | ColumnTypeDict::MYSQL_TYPE_TIMESTAMP2
        | ColumnTypeDict::MYSQL_TYPE_DATETIME2
        | ColumnTypeDict::MYSQL_TYPE_TIME2
        | ColumnTypeDict::MYSQL_TYPE_FLOAT
        | ColumnTypeDict::MYSQL_TYPE_DOUBLE => MetaShape::OneByte,
        ColumnTypeDict::MYSQL_TYPE_NEWDECIMAL => MetaShape::Decimal,
        ColumnTypeDict::MYSQL_TYPE_STRING => MetaShape::StoredType,
        _ => MetaShape::Absent,
    }
}

/// Bytes of metadata that a column of type code `code` has.
pub open spec fn meta_width(code: u8) -> nat {
    match meta_shape(column_type_of(code)) {
        MetaShape::OneByte => 1,
        MetaShape::Absent => 0,
        _ => 2,
    }
}

/// The stored type code of a string-family column that marks an enum or a set:
/// its width must come from the stored type, not the declared one.
pub const STORED_TYPE_DIFFERS: usize = 65535;

/// What the metadata bytes `m` of a column of type code `code` record.
pub open spec fn meta_value(code: u8, m: Seq<u8>) -> Seq<usize> {
    match meta_shape(column_type_of(code)) {
        MetaShape::LengthPrefix => if le16_at(m, 0) > 255 {
            seq![2usize]
        } else {
            seq![1usize]
        },
        MetaShape::OneByte => seq![m[0] as usize],
        MetaShape::Decimal => seq![m[0] as usize, m[1] as usize],
        MetaShape::StoredType => if m[0] != code {
            seq![STORED_TYPE_DIFFERS]
        } else {
            seq![m[1] as usize]
        },
        MetaShape::Absent => seq![0usize],
    }
}

/// Bytes of metadata that columns of the type codes `codes` take together.
pub open spec fn meta_span(codes: Seq<u8>) -> nat
    decreases codes.len(),
{
    if codes.len() == 0 {
        0
    } else {
        meta_span(codes.drop_last()) + meta_width(codes.last())
    }
}

/// A prefix of the codes takes no more metadata than all of them.
pub proof fn lemma_meta_span_prefix(codes: Seq<u8>, i: int)
    requires
        0 <= i <= codes.len(),
    ensures
        meta_span(codes.take(i)) <= meta_span(codes),
    decreases codes.len(),
{
    if i < codes.len() {
        lemma_meta_span_prefix(codes.drop_last(), i);
        assert(codes.drop_last().take(i) =~= codes.take(i));
    } else {
        assert(codes.take(i) =~= codes);
    }
}

/// One more code adds its own width.
pub proof fn lemma_meta_span_step(codes: Seq<u8>, i: int)
    requires
        0 <= i < codes.len(),
    ensures
        meta_span(codes.take(i + 1)) == meta_span(codes.take(i)) + meta_width(codes[i]),
{
    assert(codes.take(i + 1).drop_last() =~= codes.take(i));
}

impl ColumnTypeDict {
    pub fn from_type_code(code: &u8) -> (r: ColumnTypeDict)
        ensures
            r == column_type_of(*code),
    {
        match *code {
            0 => ColumnTypeDict::MYSQL_TYPE_DECIMAL,
            1 => ColumnTypeDict::MYSQL_TYPE_TINY,
            2 => ColumnTypeDict::MYSQL_TYPE_SHORT,
            3 => ColumnTypeDict::MYSQL_TYPE_LONG,
            4 => ColumnTypeDict::MYSQL_TYPE_FLOAT,
            5 => ColumnTypeDict::MYSQL_TYPE_DOUBLE,
            6 => ColumnTypeDict::MYSQL_TYPE_NULL,
            7 => ColumnTypeDict::MYSQL_TYPE_TIMESTAMP,
            8 => ColumnTypeDict::MYSQL_TYPE_LONGLONG,
            9 => ColumnTypeDict::MYSQL_TYPE_INT24,
            10 => ColumnTypeDict::MYSQL_TYPE_DATE,
            11 => ColumnTypeDict::MYSQL_TYPE_TIME,
            12 => ColumnTypeDict::MYSQL_TYPE_DATETIME,
            13 => ColumnTypeDict::MYSQL_TYPE_YEAR,
            14 => ColumnTypeDict::MYSQL_TYPE_NEWDATE,
            15 => ColumnTypeDict::MYSQL_TYPE_VARCHAR,
            16 => ColumnTypeDict::MYSQL_TYPE_BIT,
            17 => ColumnTypeDict::MYSQL_TYPE_TIMESTAMP2,
            18 => ColumnTypeDict::MYSQL_TYPE_DATETIME2,
            19 => ColumnTypeDict::MYSQL_TYPE_TIME2,
            245 => ColumnTypeDict::MYSQL_TYPE_JSON,
            246 => ColumnTypeDict::MYSQL_TYPE_NEWDECIMAL,
            247 => ColumnTypeDict::MYSQL_TYPE_ENUM,
            248 => ColumnTypeDict::MYSQL_TYPE_SET,
            249 => ColumnTypeDict::MYSQL_TYPE_TINY_BLOB,
            250 => ColumnTypeDict::MYSQL_TYPE_MEDIUM_BLOB,
            251 => ColumnTypeDict::MYSQL_TYPE_LONG_BLOB,
            252 => ColumnTypeDict::MYSQL_TYPE_BLOB,
            253 => ColumnTypeDict::MYSQL_TYPE_VAR_STRING,
            254 => ColumnTypeDict::MYSQL_TYPE_STRING,
            255 => ColumnTypeDict::MYSQL_TYPE_GEOMETRY,
            _ => ColumnTypeDict::MYSQL_TYPE_UNRECOGNIZED,
        }
    }
}

/// A column of a table-metadata event: its type and its metadata.
#[derive(Debug)]
pub struct ColumnInfo {
    pub column_type: ColumnTypeDict,
    pub column_meta: Vec<usize>,
}

} // verus!
