use crate::column::{
    MetaShape, STORED_TYPE_DIFFERS, column_type_of, lemma_meta_span_prefix, lemma_meta_span_step,
    meta_shape, meta_span, meta_value, meta_width,
};
use crate::cursor::{le16_at, le32_at};
use crate::table_map::{TableMap, tm_codes, tm_column_bytes, tm_count_at, tm_fits, tm_matches, tm_meta_at};
use crate::events::{query_command_bytes, query_database_bytes, query_error};
use crate::header::{EventHeader, header_size, parse_header};
use vstd::prelude::*;

verus! {

/// In a query body that decodes, the database name, the statement text, the
/// thirteen fixed bytes, the name's terminator and the status variables fill
/// the event exactly: their lengths add up to event length less header length.
pub proof fn lemma_query_lengths(b: Seq<u8>, header: EventHeader)
    requires
        query_error(b, header) is None,
    ensures
        query_database_bytes(b).len() + query_command_bytes(b, header).len() + 13 + 1 + le16_at(b, 11)
            == header.event_length - header.header_length,
{
}

/// The marker byte of a `"repl"` session: the header takes one byte more, and
/// the bytes after the marker give the header that they give without it,
/// but for its length. An event length of exactly 19 is left out: it fits a
/// header without the marker and is too short for one with it.
pub proof fn lemma_repl_marker(marker: u8, s: Seq<u8>)
    requires
        s.len() >= 13 ==> le32_at(s, 9) != 19,
    ensures
        header_size(true) == header_size(false) + 1,
        parse_header(seq![marker] + s, true) == match parse_header(s, false) {
            Some(h) => Some(EventHeader { header_length: 20, ..h }),
            None => None::<EventHeader>,
        },
{
    let t = seq![marker] + s;
    assert forall|i: int| 0 <= i < s.len() implies t[i + 1] == s[i] by {}
    if s.len() >= 19 {
        assert(le32_at(t, 10) == le32_at(s, 9));
        assert(le32_at(t, 1) == le32_at(s, 0));
        assert(le32_at(t, 6) == le32_at(s, 5));
        assert(le32_at(t, 14) == le32_at(s, 13));
        assert(le16_at(t, 18) == le16_at(s, 17));
        assert(t[5] == s[4]);
    }
}

/// Whether `meta` is metadata that a column of type code `code` can have once
/// decoded.
pub open spec fn meta_valid(code: u8, meta: Seq<usize>) -> bool {
    match meta_shape(column_type_of(code)) {
        MetaShape::LengthPrefix => meta == seq![1usize] || meta == seq![2usize],
        MetaShape::OneByte => meta.len() == 1 && meta[0] < 256,
        MetaShape::Decimal => meta.len() == 2 && meta[0] < 256 && meta[1] < 256,
        MetaShape::StoredType => meta.len() == 1 && (meta[0] == STORED_TYPE_DIFFERS || meta[0] < 256),
        MetaShape::Absent => meta == seq![0usize],
    }
}

/// Metadata bytes that decode to `meta` for a column of type code `code`.
pub open spec fn encode_column_meta(code: u8, meta: Seq<usize>) -> Seq<u8> {
    match meta_shape(column_type_of(code)) {
        MetaShape::LengthPrefix => if meta[0] == 2 {
            seq![0u8, 1u8]
        } else {
            seq![255u8, 0u8]
        },
        MetaShape::OneByte => seq![meta[0] as u8],
        MetaShape::Decimal => seq![meta[0] as u8, meta[1] as u8],
        MetaShape::StoredType => if meta[0] == STORED_TYPE_DIFFERS {
            seq![247u8, 1u8]
        } else {
            seq![code, meta[0] as u8]
        },
        MetaShape::Absent => Seq::empty(),
    }
}

/// The metadata block of columns of type codes `codes` with metadata `metas`.
pub open spec fn encode_metas(codes: Seq<u8>, metas: Seq<Seq<usize>>) -> Seq<u8>
    decreases codes.len(),
{
    if codes.len() == 0 {
        Seq::empty()
    } else {
        encode_metas(codes.drop_last(), metas.drop_last()) + encode_column_meta(
            codes.last(),
            metas.last(),
        )
    }
}

/// A table-metadata body for the given names, type codes and metadata.
pub open spec fn encode_table_map(
    database: Seq<u8>,
    table: Seq<u8>,
    codes: Seq<u8>,
    metas: Seq<Seq<usize>>,
) -> Seq<u8> {
    let block = encode_metas(codes, metas);
    Seq::new(8, |i: int| 0u8) + seq![database.len() as u8] + database + seq![0u8] + seq![
        table.len() as u8,
    ] + table + seq![0u8] + seq![codes.len() as u8] + codes + seq![block.len() as u8] + block
}

proof fn lemma_column_round_trip(code: u8, meta: Seq<usize>)
    requires
        meta_valid(code, meta),
    ensures
        encode_column_meta(code, meta).len() == meta_width(code),
        meta_value(code, encode_column_meta(code, meta)) == meta,
{
    let e = encode_column_meta(code, meta);
    match meta_shape(column_type_of(code)) {
        MetaShape::LengthPrefix => {},
        MetaShape::OneByte => {
            assert(meta_value(code, e) =~= meta);
        },
        MetaShape::Decimal => {
            assert(meta_value(code, e) =~= meta);
        },
        MetaShape::StoredType => {
            assert(column_type_of(code) == crate::column::ColumnTypeDict::MYSQL_TYPE_STRING);
            assert(meta_value(code, e) =~= meta);
        },
        MetaShape::Absent => {},
    }
}

proof fn lemma_encode_metas_len(codes: Seq<u8>, metas: Seq<Seq<usize>>)
    requires
        metas.len() == codes.len(),
        forall|i: int| 0 <= i < codes.len() ==> meta_valid(#[trigger] codes[i], metas[i]),
    ensures
        encode_metas(codes, metas).len() == meta_span(codes),
    decreases codes.len(),
{
    if codes.len() > 0 {
        let n = codes.len() - 1;
        assert forall|i: int| 0 <= i < n implies meta_valid(#[trigger] codes.drop_last()[i], metas.drop_last()[i]) by {
            assert(codes.drop_last()[i] == codes[i]);
        }
        lemma_encode_metas_len(codes.drop_last(), metas.drop_last());
        lemma_column_round_trip(codes[n], metas[n]);
    }
}

proof fn lemma_encode_metas_prefix(codes: Seq<u8>, metas: Seq<Seq<usize>>, i: int)
    requires
        metas.len() == codes.len(),
        forall|j: int| 0 <= j < codes.len() ==> meta_valid(#[trigger] codes[j], metas[j]),
        0 <= i <= codes.len(),
    ensures
        encode_metas(codes, metas).subrange(0, meta_span(codes.take(i)) as int) == encode_metas(
            codes.take(i),
            metas.take(i),
        ),
    decreases codes.len(),
{
    lemma_encode_metas_len(codes, metas);
    if i == codes.len() {
        assert(codes.take(i) =~= codes);
        assert(metas.take(i) =~= metas);
        assert(encode_metas(codes, metas).subrange(0, meta_span(codes) as int) =~= encode_metas(codes, metas));
    } else {
        let n = codes.len() - 1;
        assert forall|j: int| 0 <= j < n implies meta_valid(#[trigger] codes.drop_last()[j], metas.drop_last()[j]) by {
            assert(codes.drop_last()[j] == codes[j]);
        }
        lemma_encode_metas_prefix(codes.drop_last(), metas.drop_last(), i);
        lemma_encode_metas_len(codes.drop_last(), metas.drop_last());
        lemma_meta_span_prefix(codes.drop_last(), i);
        assert(codes.drop_last().take(i) =~= codes.take(i));
        assert(metas.drop_last().take(i) =~= metas.take(i));
        let first = encode_metas(codes.drop_last(), metas.drop_last());
        let whole = encode_metas(codes, metas);
        assert(whole.subrange(0, meta_span(codes.take(i)) as int) =~= first.subrange(
            0,
            meta_span(codes.take(i)) as int,
        ));
    }
}

/// Column `i` of an encoded metadata block holds that column's encoding.
proof fn lemma_encode_metas_column(codes: Seq<u8>, metas: Seq<Seq<usize>>, i: int)
    requires
        metas.len() == codes.len(),
        forall|j: int| 0 <= j < codes.len() ==> meta_valid(#[trigger] codes[j], metas[j]),
        0 <= i < codes.len(),
    ensures
        encode_metas(codes, metas).subrange(
            meta_span(codes.take(i)) as int,
            meta_span(codes.take(i + 1)) as int,
        ) == encode_column_meta(codes[i], metas[i]),
{
    lemma_encode_metas_prefix(codes, metas, i + 1);
    lemma_meta_span_step(codes, i);
    lemma_meta_span_prefix(codes, i + 1);
    let t = codes.take(i + 1);
    let m = metas.take(i + 1);
    assert(t.drop_last() =~= codes.take(i));
    assert(m.drop_last() =~= metas.take(i));
    assert forall|j: int| 0 <= j < i implies meta_valid(#[trigger] codes.take(i)[j], metas.take(i)[j]) by {
        assert(codes.take(i)[j] == codes[j]);
    }
    lemma_encode_metas_len(codes.take(i), metas.take(i));
    lemma_encode_metas_len(codes, metas);
    let whole = encode_metas(codes, metas);
    let lo = meta_span(codes.take(i)) as int;
    let hi = meta_span(codes.take(i + 1)) as int;
    assert(whole.subrange(lo, hi) =~= whole.subrange(0, hi).subrange(lo, hi));
    assert(encode_metas(t, m) =~= encode_metas(codes.take(i), metas.take(i)) + encode_column_meta(codes[i], metas[i]));
}

/// Encoding a table description and decoding it again gives back the column
/// count, each column's type and each column's metadata.
pub proof fn lemma_table_map_round_trip(
    database: Seq<u8>,
    table: Seq<u8>,
    codes: Seq<u8>,
    metas: Seq<Seq<usize>>,
    t: TableMap,
)
    requires
        database.len() < 256,
        table.len() < 256,
        codes.len() < 256,
        metas.len() == codes.len(),
        forall|i: int| 0 <= i < codes.len() ==> meta_valid(#[trigger] codes[i], metas[i]),
        encode_metas(codes, metas).len() < 256,
    ensures
        tm_fits(encode_table_map(database, table, codes, metas)),
        tm_matches(t, encode_table_map(database, table, codes, metas)) ==> {
            &&& t.column_count == codes.len()
            &&& forall|i: int|
                0 <= i < codes.len() ==> (#[trigger] t.column_info@[i]).column_type == column_type_of(codes[i])
                    && t.column_info@[i].column_meta@ == metas[i]
        },
{
    let b = encode_table_map(database, table, codes, metas);
    let block = encode_metas(codes, metas);
    let d = database.len() as int;
    let tl = table.len() as int;
    let n = codes.len() as int;
    lemma_encode_metas_len(codes, metas);
    assert(b[8] == d);
    assert(b[10 + d] == tl);
    assert(tm_count_at(b) == 12 + d + tl);
    assert(b[12 + d + tl] == n);
    assert(tm_codes(b) =~= codes);
    assert(tm_meta_at(b) == 14 + d + tl + n);
    let m0 = 14 + d + tl + n;
    assert(b.subrange(m0, m0 + block.len()) =~= block);
    assert forall|i: int| 0 <= i < codes.len() implies meta_value(codes[i], #[trigger] tm_column_bytes(b, i))
        == metas[i] by {
        lemma_encode_metas_column(codes, metas, i);
        lemma_meta_span_prefix(codes, i + 1);
        lemma_meta_span_step(codes, i);
        assert(tm_column_bytes(b, i) =~= block.subrange(
            meta_span(codes.take(i)) as int,
            meta_span(codes.take(i + 1)) as int,
        ));
        lemma_column_round_trip(codes[i], metas[i]);
    }
    if tm_matches(t, b) {
        assert forall|i: int| 0 <= i < codes.len() implies (#[trigger] t.column_info@[i]).column_type
            == column_type_of(codes[i]) && t.column_info@[i].column_meta@ == metas[i] by {
            assert(crate::table_map::tm_column_matches(t.column_info@[i], b, i));
            assert(meta_value(codes[i], tm_column_bytes(b, i)) == metas[i]);
        }
    }
}

} // verus!
