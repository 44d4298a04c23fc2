//! Decoding of data records by a cached definition's layout.

use crate::cursor::ByteCursor;
use crate::v9::template::FieldDefinition;
use crate::wire::u16_at;
use crate::{after, short, Error, ErrorView};
use vstd::prelude::*;
use vstd::slice::slice_to_vec;

verus! {

/// One decoded field: its type code and the bytes of its value.
#[derive(Clone, Debug, PartialEq)]
pub struct DataField {
    /// The type code that the template gave the field.
    pub typ: u16,
    /// The field's bytes as they stood in the record, without any length prefix.
    pub value: Vec<u8>,
}

/// The mathematical value of a [`DataField`].
pub ghost struct DataFieldView {
    pub typ: u16,
    pub value: Seq<u8>,
}

impl View for DataField {
    type V = DataFieldView;

    open spec fn view(&self) -> DataFieldView {
        DataFieldView { typ: self.typ, value: self.value@ }
    }
}

/// One decoded flow observation: a value for each field of the template.
#[derive(Clone, Debug, PartialEq)]
pub struct DataRecord {
    /// The fields in the template's order.
    pub fields: Vec<DataField>,
}

impl View for DataRecord {
    type V = Seq<DataFieldView>;

    open spec fn view(&self) -> Seq<DataFieldView> {
        self.fields@.map_values(|f: DataField| f@)
    }
}

/// The least number of bytes that field `f` takes in a record: its length, or
/// the one prefix byte of a variable-length field.
pub open spec fn min_width(f: FieldDefinition) -> int {
    if f.length == 0xFFFF {
        1
    } else {
        f.length as int
    }
}

/// The least number of bytes that the first `k` fields of `fs` take.
pub open spec fn min_size(fs: Seq<FieldDefinition>, k: int) -> int
    decreases k,
{
    if k <= 0 {
        0
    } else {
        min_size(fs, k - 1) + min_width(fs[k - 1])
    }
}

/// The least number of bytes that one record of layout `fs` takes.
pub open spec fn min_record_size(fs: Seq<FieldDefinition>) -> int {
    min_size(fs, fs.len() as int)
}

/// Where the value of field `f` lies in `s` when the field starts at `at`:
/// the offsets of its first byte and of the byte after its last.
///
/// A fixed-length field is its value. A variable-length field opens with one
/// byte that gives the value's length, unless that byte is 255: then the two
/// bytes after it give the length, big-endian. Each read that finds fewer
/// bytes than it wants is short by what it wanted and what was left for it.
pub open spec fn field_extent(s: Seq<u8>, at: int, f: FieldDefinition) -> Result<
    (int, int),
    ErrorView,
> {
    let left = s.len() - at;
    if f.length != 0xFFFF {
        if left < f.length {
            Err(short(f.length as int, left))
        } else {
            Ok((at, at + f.length))
        }
    } else if left < 1 {
        Err(short(1, left))
    } else if s[at] != 255 {
        if left - 1 < s[at] {
            Err(short(s[at] as int, left - 1))
        } else {
            Ok((at + 1, at + 1 + s[at]))
        }
    } else if left - 1 < 2 {
        Err(short(2, left - 1))
    } else if left - 3 < u16_at(s, at + 1) {
        Err(short(u16_at(s, at + 1), left - 3))
    } else {
        Ok((at + 3, at + 3 + u16_at(s, at + 1)))
    }
}

/// The first `k` fields of a record of layout `fs` that starts at `at` in
/// `s`: their values and the offset after the last of them, or the first
/// short read.
pub open spec fn decode_fields(s: Seq<u8>, at: int, fs: Seq<FieldDefinition>, k: int) -> Result<
    (Seq<DataFieldView>, int),
    ErrorView,
>
    decreases k,
{
    if k <= 0 {
        Ok((Seq::<DataFieldView>::empty(), at))
    } else {
        match decode_fields(s, at, fs, k - 1) {
            Err(e) => Err(e),
            Ok((values, pos)) => match field_extent(s, pos, fs[k - 1]) {
                Err(e) => Err(e),
                Ok((start, end)) => Ok(
                    (
                        values.push(
                            DataFieldView { typ: fs[k - 1].typ, value: s.subrange(start, end) },
                        ),
                        end,
                    ),
                ),
            },
        }
    }
}

/// The record of layout `fs` that starts at `at` in `s`, and where it ends.
pub open spec fn decode_record(s: Seq<u8>, at: int, fs: Seq<FieldDefinition>) -> Result<
    (Seq<DataFieldView>, int),
    ErrorView,
> {
    decode_fields(s, at, fs, fs.len() as int)
}

/// Decoded fields end within the bytes, at least their minimum size after
/// the start, and there is one value per field.
pub proof fn lemma_decode_fields_extent(s: Seq<u8>, at: int, fs: Seq<FieldDefinition>, k: int)
    requires
        0 <= at <= s.len(),
        0 <= k <= fs.len(),
    ensures
        decode_fields(s, at, fs, k) matches Ok((values, end)) ==> at + min_size(fs, k) <= end
            <= s.len() && values.len() == k,
        min_size(fs, k) >= 0,
    decreases k,
{
    if k > 0 {
        lemma_decode_fields_extent(s, at, fs, k - 1);
    }
}

/// Reads the value of field `f` at the cursor, length prefix included where
/// the field is variable-length.
pub fn read_field<'a>(c: &mut ByteCursor<'a>, f: FieldDefinition) -> (r: Result<DataField, Error>)
    ensures
        final(c).bytes() == old(c).bytes(),
        match r {
            Ok(v) => field_extent(old(c).bytes(), old(c).offset(), f) matches Ok(extent)
                && v@ == (DataFieldView {
                typ: f.typ,
                value: old(c).bytes().subrange(extent.0, extent.1),
            }) && final(c).offset() == extent.1,
            Err(e) => field_extent(old(c).bytes(), old(c).offset(), f) == Err::<
                (int, int),
                ErrorView,
            >(e@),
        },
{
    let length: usize = if f.length != 0xFFFF {
        f.length as usize
    } else {
        let first = c.read_u8()?;
        if first != 255 {
            first as usize
        } else {
            c.read_u16()? as usize
        }
    };
    let bytes = c.read_bytes(length)?;
    Ok(DataField { typ: f.typ, value: slice_to_vec(bytes) })
}

impl DataRecord {
    /// Reads one record of layout `fs` at the cursor.
    pub fn read<'a>(c: &mut ByteCursor<'a>, fs: &Vec<FieldDefinition>) -> (r: Result<Self, Error>)
        ensures
            final(c).bytes() == old(c).bytes(),
            match r {
                Ok(record) => decode_record(old(c).bytes(), old(c).offset(), fs@) matches Ok(
                    decoded,
                ) && record@ == decoded.0 && final(c).offset() == decoded.1,
                Err(e) => decode_record(old(c).bytes(), old(c).offset(), fs@) == Err::<
                    (Seq<DataFieldView>, int),
                    ErrorView,
                >(e@),
            },
    {
        let ghost bytes = c.bytes();
        let ghost start = c.offset();
        let mut fields: Vec<DataField> = Vec::new();
        let mut i: usize = 0;
        while i < fs.len()
            invariant
                i <= fs.len(),
                c.bytes() == bytes,
                bytes == old(c).bytes(),
                start == old(c).offset(),
                decode_fields(bytes, start, fs@, i as int) matches Ok(decoded)
                    && fields@.map_values(|f: DataField| f@) == decoded.0 && c.offset()
                    == decoded.1,
            decreases fs.len() - i,
        {
            let field = match read_field(c, fs[i]) {
                Ok(v) => v,
                Err(e) => {
                    proof {
                        lemma_decode_fields_fail(bytes, start, fs@, i as int + 1);
                    }
                    return Err(e);
                },
            };
            let ghost before = fields@;
            fields.push(field);
            i = i + 1;
            assert(fields@.map_values(|f: DataField| f@) =~= before.map_values(
                |f: DataField| f@,
            ).push(field@));
        }
        Ok(DataRecord { fields })
    }

    /// The number of fields in the record.
    pub fn field_count(&self) -> (n: usize)
        ensures
            n == self@.len(),
    {
        self.fields.len()
    }
}

/// Once a prefix of the fields fails to decode, so does every longer one,
/// with the same error.
pub proof fn lemma_decode_fields_fail(s: Seq<u8>, at: int, fs: Seq<FieldDefinition>, k: int)
    requires
        0 <= k <= fs.len(),
        decode_fields(s, at, fs, k) is Err,
    ensures
        decode_record(s, at, fs) == decode_fields(s, at, fs, k),
    decreases fs.len() - k,
{
    if k < fs.len() {
        assert(decode_fields(s, at, fs, k + 1) == decode_fields(s, at, fs, k));
        lemma_decode_fields_fail(s, at, fs, k + 1);
    }
}

/// The records of layout `fs` that lie in `s` from offset `at` on.
///
/// As long as at least a record's minimum size is left, a record is decoded
/// and a short read in it is an error. What is left when less than that
/// remains is padding. A layout that takes no bytes describes no record.
pub open spec fn decode_records(s: Seq<u8>, at: int, fs: Seq<FieldDefinition>) -> Result<
    Seq<Seq<DataFieldView>>,
    ErrorView,
>
    decreases s.len() - at,
{
    if at < 0 || min_record_size(fs) <= 0 || s.len() - at < min_record_size(fs) {
        Ok(Seq::<Seq<DataFieldView>>::empty())
    } else {
        match decode_record(s, at, fs) {
            Err(e) => Err(e),
            Ok((record, end)) => {
                proof {
                    lemma_decode_fields_extent(s, at, fs, fs.len() as int);
                }
                after(seq![record], decode_records(s, end, fs))
            },
        }
    }
}

/// The least number of bytes that one record of layout `fs` takes, where
/// that is at most `limit`.
pub fn min_record_size_within(fs: &Vec<FieldDefinition>, limit: usize) -> (r: Option<usize>)
    ensures
        match r {
            Some(m) => m == min_record_size(fs@) && m <= limit,
            None => min_record_size(fs@) > limit,
        },
{
    let mut total: usize = 0;
    let mut i: usize = 0;
    while i < fs.len()
        invariant
            i <= fs.len(),
            total == min_size(fs@, i as int),
            total <= limit,
        decreases fs.len() - i,
    {
        let width: usize = if fs[i].length == 0xFFFF {
            1
        } else {
            fs[i].length as usize
        };
        if width > limit - total {
            proof {
                lemma_min_size_grows(fs@, i as int + 1, fs@.len() as int);
            }
            return None;
        }
        total = total + width;
        i = i + 1;
    }
    Some(total)
}

/// A longer prefix of the fields takes at least as many bytes.
pub proof fn lemma_min_size_grows(fs: Seq<FieldDefinition>, j: int, k: int)
    requires
        0 <= j <= k,
    ensures
        0 <= min_size(fs, j) <= min_size(fs, k),
    decreases k,
{
    if j < k {
        lemma_min_size_grows(fs, j, k - 1);
    } else if k > 0 {
        lemma_min_size_grows(fs, j - 1, k - 1);
    }
}

/// Decodes the body of a data flow set by the layout `fs`: as many records
/// as lie in it, and nothing for the padding after them.
pub fn read_records(body: &[u8], fs: &Vec<FieldDefinition>) -> (r: Result<Vec<DataRecord>, Error>)
    ensures
        match r {
            Ok(records) => decode_records(body@, 0, fs@) == Ok::<
                Seq<Seq<DataFieldView>>,
                ErrorView,
            >(records@.map_values(|d: DataRecord| d@)),
            Err(e) => decode_records(body@, 0, fs@) == Err::<Seq<Seq<DataFieldView>>, ErrorView>(
                e@,
            ),
        },
{
    let mut records: Vec<DataRecord> = Vec::new();
    let size = match min_record_size_within(fs, body.len()) {
        Some(m) => m,
        None => { return Ok(records); },
    };
    if size == 0 {
        return Ok(records);
    }
    let mut c = ByteCursor::new(body);
    while c.remaining() >= size
        invariant
            c.bytes() == body@,
            0 <= c.offset() <= body@.len(),
            size == min_record_size(fs@),
            size > 0,
            decode_records(body@, 0, fs@) == after(
                records@.map_values(|d: DataRecord| d@),
                decode_records(body@, c.offset(), fs@),
            ),
        decreases body@.len() - c.offset(),
    {
        let ghost at = c.offset();
        let ghost before = records@.map_values(|d: DataRecord| d@);
        proof {
            lemma_decode_fields_extent(body@, at, fs@, fs@.len() as int);
        }
        let record = DataRecord::read(&mut c, fs)?;
        records.push(record);
        proof {
            let now = records@.map_values(|d: DataRecord| d@);
            assert(now =~= before.push(record@));
            let rest = decode_records(body@, c.offset(), fs@);
            assert(decode_records(body@, at, fs@) == after(seq![record@], rest));
            match rest {
                Ok(more) => {
                    assert(before + (seq![record@] + more) =~= now + more);
                },
                Err(_) => {},
            }
        }
    }
    proof {
        assert(records@.map_values(|d: DataRecord| d@) + Seq::<Seq<DataFieldView>>::empty()
            =~= records@.map_values(|d: DataRecord| d@));
    }
    Ok(records)
}

} // verus!
