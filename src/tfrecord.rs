//! TFRecord framing: protobuf varints, the `tf.train.Example` message that
//! holds one packed float feature, and records guarded by masked CRC-32C.

use vstd::prelude::*;
use vstd::slice::slice_subrange;

verus! {

/// The CRC-32C (Castagnoli) checksum of a byte sequence.
pub uninterp spec fn crc32c_of(data: Seq<u8>) -> u32;

/// Relies on `crc32c::crc32c`: the CRC-32C checksum of `data`.
#[verifier::external_body]
fn crc32c_checksum(data: &[u8]) -> (r: u32)
    ensures
        r == crc32c_of(data@),
{
    crc32c::crc32c(data)
}

/// Constant added by the TFRecord checksum mask.
pub const CRC_MASK_DELTA: u32 = 0xa282_ead8;

/// A checksum rotated right by 15 bits.
pub open spec fn rotate_right_15(crc: u32) -> u32 {
    ((crc >> 15u32) | (crc << 17u32)) as u32
}

/// The TFRecord mask of a checksum: rotated right by 15 bits, plus
/// `CRC_MASK_DELTA` modulo 2^32.
pub open spec fn masked_of(crc: u32) -> u32 {
    ((rotate_right_15(crc) as int + CRC_MASK_DELTA as int) % 0x1_0000_0000) as u32
}

/// Masks a checksum as TFRecord files store it.
pub fn mask_crc(crc: u32) -> (r: u32)
    ensures
        r == masked_of(crc),
{
    let rot: u32 = (crc >> 15u32) | (crc << 17u32);
    if rot > u32::MAX - CRC_MASK_DELTA {
        rot - (u32::MAX - CRC_MASK_DELTA) - 1
    } else {
        rot + CRC_MASK_DELTA
    }
}

/// The masked CRC-32C of `bytes`.
pub fn masked_crc32c(bytes: &[u8]) -> (r: u32)
    ensures
        r == masked_of(crc32c_of(bytes@)),
{
    mask_crc(crc32c_checksum(bytes))
}

/// Little-endian bytes of a 32-bit value.
pub open spec fn le32(v: u32) -> Seq<u8> {
    seq![(v & 0xff) as u8, ((v >> 8u32) & 0xff) as u8, ((v >> 16u32) & 0xff) as u8, ((v >> 24u32) & 0xff) as u8]
}

/// Little-endian bytes of a 64-bit value.
pub open spec fn le64(v: u64) -> Seq<u8> {
    seq![
        (v & 0xff) as u8,
        ((v >> 8u64) & 0xff) as u8,
        ((v >> 16u64) & 0xff) as u8,
        ((v >> 24u64) & 0xff) as u8,
        ((v >> 32u64) & 0xff) as u8,
        ((v >> 40u64) & 0xff) as u8,
        ((v >> 48u64) & 0xff) as u8,
        ((v >> 56u64) & 0xff) as u8,
    ]
}

/// Little-endian bytes of a 32-bit value.
pub fn u32_le_bytes(v: u32) -> (r: Vec<u8>)
    ensures
        r@ == le32(v),
{
    let r = vec![(v & 0xff) as u8, ((v >> 8u32) & 0xff) as u8, ((v >> 16u32) & 0xff) as u8, ((v >> 24u32) & 0xff) as u8];
    assert(r@ =~= le32(v));
    r
}

/// Little-endian bytes of a 64-bit value.
pub fn u64_le_bytes(v: u64) -> (r: Vec<u8>)
    ensures
        r@ == le64(v),
{
    let r = vec![
        (v & 0xff) as u8,
        ((v >> 8u64) & 0xff) as u8,
        ((v >> 16u64) & 0xff) as u8,
        ((v >> 24u64) & 0xff) as u8,
        ((v >> 32u64) & 0xff) as u8,
        ((v >> 40u64) & 0xff) as u8,
        ((v >> 48u64) & 0xff) as u8,
        ((v >> 56u64) & 0xff) as u8,
    ];
    assert(r@ =~= le64(v));
    r
}

/// Protobuf base-128 varint: seven bits per byte, least significant group
/// first, the high bit set on every byte but the last.
pub open spec fn varint(v: u64) -> Seq<u8>
    decreases v,
{
    if v < 0x80 {
        seq![v as u8]
    } else {
        seq![(v % 0x80 + 0x80) as u8] + varint(v / 0x80)
    }
}

/// Appends the varint encoding of `value` to `buffer`.
pub fn encode_varint(buffer: &mut Vec<u8>, value: u64)
    ensures
        final(buffer)@ == old(buffer)@ + varint(value),
{
    let mut v: u64 = value;
    while v >= 0x80
        invariant
            buffer@ + varint(v) == old(buffer)@ + varint(value),
        decreases v,
    {
        let ghost before = buffer@;
        buffer.push((v % 0x80 + 0x80) as u8);
        assert(buffer@ + varint(v / 0x80) =~= before + varint(v));
        v = v / 0x80;
    }
    let ghost before = buffer@;
    buffer.push(v as u8);
    assert(buffer@ =~= before + varint(v));
}

/// Appends `data` to `buffer`.
fn push_all(buffer: &mut Vec<u8>, data: &[u8])
    ensures
        final(buffer)@ == old(buffer)@ + data@,
{
    let mut i: usize = 0;
    while i < data.len()
        invariant
            i <= data@.len(),
            buffer@ == old(buffer)@ + data@.take(i as int),
        decreases data.len() - i,
    {
        buffer.push(data[i]);
        assert(data@.take(i as int + 1) =~= data@.take(i as int).push(data@[i as int]));
        i = i + 1;
    }
    assert(data@.take(i as int) =~= data@);
}

/// One TFRecord: the payload length as 8 little-endian bytes, the masked
/// CRC-32C of those 8 bytes, the payload, and the masked CRC-32C of the
/// payload, each checksum as 4 little-endian bytes.
pub open spec fn record_frame(data: Seq<u8>) -> Seq<u8> {
    le64(data.len() as u64) + le32(masked_of(crc32c_of(le64(data.len() as u64)))) + data + le32(
        masked_of(crc32c_of(data)),
    )
}

/// Appends one framed record holding `data` to `buffer` and returns the
/// number of bytes appended.
pub fn write_raw_record(buffer: &mut Vec<u8>, data: &[u8]) -> (r: usize)
    requires
        data@.len() + 16 <= usize::MAX,
    ensures
        final(buffer)@ == old(buffer)@ + record_frame(data@),
        r == data@.len() + 16,
{
    let len_buf = u64_le_bytes(data.len() as u64);
    let len_crc = masked_crc32c(len_buf.as_slice());
    let len_crc_buf = u32_le_bytes(len_crc);
    let data_crc = masked_crc32c(data);
    let data_crc_buf = u32_le_bytes(data_crc);
    push_all(buffer, len_buf.as_slice());
    push_all(buffer, len_crc_buf.as_slice());
    push_all(buffer, data);
    push_all(buffer, data_crc_buf.as_slice());
    assert(buffer@ =~= old(buffer)@ + record_frame(data@));
    8 + 4 + data.len() + 4
}

/// Value of 4 little-endian bytes.
pub open spec fn le32_value(b: Seq<u8>) -> u32 {
    (b[0] as u32) | ((b[1] as u32) << 8u32) | ((b[2] as u32) << 16u32) | ((b[3] as u32) << 24u32)
}

/// Value of 8 little-endian bytes.
pub open spec fn le64_value(b: Seq<u8>) -> u64 {
    (b[0] as u64) | ((b[1] as u64) << 8u64) | ((b[2] as u64) << 16u64) | ((b[3] as u64) << 24u64) | ((
    b[4] as u64) << 32u64) | ((b[5] as u64) << 40u64) | ((b[6] as u64) << 48u64) | ((b[7] as u64)
        << 56u64)
}

/// Why a byte stream is not the expected sequence of records; each variant
/// but the last carries the index of the record at fault.
#[derive(Debug, Clone, Copy, PartialEq, Eq, Structural)]
pub enum TfRecordError {
    TruncatedLength(usize),
    TruncatedLengthCrc(usize),
    LengthCrcMismatch(usize),
    TruncatedData(usize),
    TruncatedDataCrc(usize),
    DataCrcMismatch(usize),
    CountMismatch { expected: usize, found: usize },
}

/// Reads records from `offset` on, having read `read` of `target` already:
/// the number of records read when the target or the end of the data is
/// reached, or the first fault.
pub open spec fn scan_records(data: Seq<u8>, offset: int, read: int, target: int) -> Result<int, TfRecordError>
    decreases data.len() - offset,
{
    if read >= target || offset >= data.len() || offset < 0 {
        Ok(read)
    } else if offset + 8 > data.len() {
        Err(TfRecordError::TruncatedLength(read as usize))
    } else {
        let len_bytes = data.subrange(offset, offset + 8);
        let len = le64_value(len_bytes) as int;
        if offset + 12 > data.len() {
            Err(TfRecordError::TruncatedLengthCrc(read as usize))
        } else if masked_of(crc32c_of(len_bytes)) != le32_value(data.subrange(offset + 8, offset + 12)) {
            Err(TfRecordError::LengthCrcMismatch(read as usize))
        } else if offset + 12 + len > data.len() {
            Err(TfRecordError::TruncatedData(read as usize))
        } else if offset + 16 + len > data.len() {
            Err(TfRecordError::TruncatedDataCrc(read as usize))
        } else if masked_of(crc32c_of(data.subrange(offset + 12, offset + 12 + len))) != le32_value(
            data.subrange(offset + 12 + len, offset + 16 + len),
        ) {
            Err(TfRecordError::DataCrcMismatch(read as usize))
        } else {
            scan_records(data, offset + 16 + len, read + 1, target)
        }
    }
}

proof fn lemma_scan_bounds(data: Seq<u8>, offset: int, read: int, target: int)
    requires
        read <= target,
    ensures
        scan_records(data, offset, read, target) is Ok ==> read <= scan_records(data, offset, read, target)->Ok_0 <= target,
    decreases data.len() - offset,
{
    if read < target && offset < data.len() && offset >= 0 && offset + 8 <= data.len() {
        let len = le64_value(data.subrange(offset, offset + 8)) as int;
        if offset + 16 + len <= data.len() {
            lemma_scan_bounds(data, offset + 16 + len, read + 1, target);
        }
    }
}

/// The outcome of checking that `data` begins with `target` well-formed records.
pub open spec fn check_records(data: Seq<u8>, target: int) -> Result<(), TfRecordError> {
    match scan_records(data, 0, 0, target) {
        Ok(n) => if n == target {
            Ok(())
        } else {
            Err(TfRecordError::CountMismatch { expected: target as usize, found: n as usize })
        },
        Err(e) => Err(e),
    }
}

/// Checks that `data` begins with `num_records` records whose length and
/// payload checksums match.
pub fn read_records(data: &[u8], num_records: usize) -> (r: Result<(), TfRecordError>)
    ensures
        r == check_records(data@, num_records as int),
{
    let n = data.len();
    let mut offset: usize = 0;
    let mut read: usize = 0;
    proof {
        lemma_scan_bounds(data@, 0, 0, num_records as int);
    }
    while read < num_records && offset < n
        invariant
            n == data@.len(),
            offset <= n,
            read <= num_records,
            check_records(data@, num_records as int) == match scan_records(data@, offset as int, read as int, num_records as int) {
                Ok(k) => if k == num_records as int {
                    Ok(())
                } else {
                    Err(TfRecordError::CountMismatch { expected: num_records, found: k as usize })
                },
                Err(e) => Err(e),
            },
            scan_records(data@, offset as int, read as int, num_records as int) is Ok ==> scan_records(data@, offset as int, read as int, num_records as int)->Ok_0 <= num_records,
        decreases n - offset,
    {
        if n - offset < 8 {
            return Err(TfRecordError::TruncatedLength(read));
        }
        let len_bytes = slice_subrange(data, offset, offset + 8);
        assert(len_bytes@ == data@.subrange(offset as int, offset + 8));
        let len64: u64 = (len_bytes[0] as u64) | ((len_bytes[1] as u64) << 8u64) | ((len_bytes[2] as u64) << 16u64)
            | ((len_bytes[3] as u64) << 24u64) | ((len_bytes[4] as u64) << 32u64) | ((len_bytes[5] as u64) << 40u64)
            | ((len_bytes[6] as u64) << 48u64) | ((len_bytes[7] as u64) << 56u64);
        if n - offset < 12 {
            return Err(TfRecordError::TruncatedLengthCrc(read));
        }
        let c = slice_subrange(data, offset + 8, offset + 12);
        let expected_len_crc: u32 = (c[0] as u32) | ((c[1] as u32) << 8u32) | ((c[2] as u32) << 16u32) | ((
        c[3] as u32) << 24u32);
        if masked_crc32c(len_bytes) != expected_len_crc {
            return Err(TfRecordError::LengthCrcMismatch(read));
        }
        if len64 > (n - offset - 12) as u64 {
            return Err(TfRecordError::TruncatedData(read));
        }
        let len = len64 as usize;
        if n - offset - 12 - len < 4 {
            return Err(TfRecordError::TruncatedDataCrc(read));
        }
        let payload = slice_subrange(data, offset + 12, offset + 12 + len);
        let d = slice_subrange(data, offset + 12 + len, offset + 16 + len);
        let expected_data_crc: u32 = (d[0] as u32) | ((d[1] as u32) << 8u32) | ((d[2] as u32) << 16u32) | ((
        d[3] as u32) << 24u32);
        if masked_crc32c(payload) != expected_data_crc {
            return Err(TfRecordError::DataCrcMismatch(read));
        }
        offset = offset + 16 + len;
        read = read + 1;
        proof {
            lemma_scan_bounds(data@, offset as int, read as int, num_records as int);
        }
    }
    if read != num_records {
        return Err(TfRecordError::CountMismatch { expected: num_records, found: read });
    }
    Ok(())
}

/// TFRecord files of a number of records, each near a target size.
#[derive(Debug, Clone)]
pub struct TfRecordFormat {
    num_records: usize,
    target_record_size: usize,
}

/// Bytes of a record set aside for framing and protobuf structure.
pub const EXAMPLE_OVERHEAD: usize = 250;

/// Fewest floats that an example holds.
pub const MIN_EXAMPLE_FLOATS: usize = 16;

impl TfRecordFormat {
    pub closed spec fn spec_num_records(&self) -> usize {
        self.num_records
    }

    pub closed spec fn spec_target_record_size(&self) -> usize {
        self.target_record_size
    }

    /// Files of `num_records` records of about `target_record_size` bytes.
    pub fn new(num_records: usize, target_record_size: usize) -> (r: Self)
        ensures
            r.spec_num_records() == num_records,
            r.spec_target_record_size() == target_record_size,
    {
        TfRecordFormat { num_records, target_record_size }
    }

    pub fn num_records(&self) -> (r: usize)
        ensures
            r == self.spec_num_records(),
    {
        self.num_records
    }

    pub fn target_record_size(&self) -> (r: usize)
        ensures
            r == self.spec_target_record_size(),
    {
        self.target_record_size
    }

    /// Number of floats that each example holds: what the target size
    /// leaves after `EXAMPLE_OVERHEAD`, in 4-byte floats, and at least
    /// `MIN_EXAMPLE_FLOATS`.
    pub fn floats_per_example(&self) -> (r: usize)
        ensures
            r == if self.spec_target_record_size() > EXAMPLE_OVERHEAD
                && (self.spec_target_record_size() - EXAMPLE_OVERHEAD) / 4 > MIN_EXAMPLE_FLOATS {
                ((self.spec_target_record_size() - EXAMPLE_OVERHEAD) / 4) as usize
            } else {
                MIN_EXAMPLE_FLOATS
            },
    {
        let available = if self.target_record_size > EXAMPLE_OVERHEAD {
            self.target_record_size - EXAMPLE_OVERHEAD
        } else {
            0
        };
        let n = available / 4;
        if n > MIN_EXAMPLE_FLOATS {
            n
        } else {
            MIN_EXAMPLE_FLOATS
        }
    }

    /// Checks that `data` holds this format's number of well-formed records.
    pub fn read_from_bytes(&self, data: &[u8]) -> (r: Result<(), TfRecordError>)
        ensures
            r == check_records(data@, self.spec_num_records() as int),
    {
        read_records(data, self.num_records)
    }

    /// File name extension of the format.
    pub fn file_extension(&self) -> (r: &'static str)
        ensures
            r@ == "tfrecord"@,
    {
        "tfrecord"
    }
}

/// A protobuf field of wire type 2: its tag, the varint length of the body,
/// then the body.
pub open spec fn delimited(tag: u8, body: Seq<u8>) -> Seq<u8> {
    seq![tag] + varint(body.len() as u64) + body
}

/// Key of the example's one feature.
pub open spec fn image_key() -> Seq<u8> {
    seq![0x69u8, 0x6du8, 0x61u8, 0x67u8, 0x65u8]
}

/// A `tf.train.Example` with one feature "image" whose float list holds the
/// packed little-endian floats `packed`.
pub open spec fn example_of(packed: Seq<u8>) -> Seq<u8> {
    let float_list = delimited(0x0a, packed);
    let feature = delimited(0x12, float_list);
    let entry = seq![0x0au8, 5u8] + image_key() + delimited(0x12, feature);
    let features = delimited(0x0a, entry);
    delimited(0x0a, features)
}

/// Appends the field `tag` with body `body` to `buffer`.
fn push_delimited(buffer: &mut Vec<u8>, tag: u8, body: &Vec<u8>)
    ensures
        final(buffer)@ == old(buffer)@ + delimited(tag, body@),
{
    buffer.push(tag);
    encode_varint(buffer, body.len() as u64);
    push_all(buffer, body.as_slice());
    assert(buffer@ =~= old(buffer)@ + delimited(tag, body@));
}

/// Encodes a `tf.train.Example` whose one feature "image" holds the packed
/// little-endian floats `packed`.
pub fn encode_example(packed: &Vec<u8>) -> (r: Vec<u8>)
    ensures
        r@ == example_of(packed@),
{
    let mut float_list: Vec<u8> = Vec::new();
    push_delimited(&mut float_list, 0x0a, packed);
    let mut feature: Vec<u8> = Vec::new();
    push_delimited(&mut feature, 0x12, &float_list);
    let mut entry: Vec<u8> = vec![0x0au8, 5u8, 0x69u8, 0x6du8, 0x61u8, 0x67u8, 0x65u8];
    push_delimited(&mut entry, 0x12, &feature);
    let mut features: Vec<u8> = Vec::new();
    push_delimited(&mut features, 0x0a, &entry);
    let mut example: Vec<u8> = Vec::new();
    push_delimited(&mut example, 0x0a, &features);
    assert(example@ =~= example_of(packed@));
    example
}

/// Frames of a sequence of payloads, one after the other.
pub open spec fn frames_of(payloads: Seq<Seq<u8>>) -> Seq<u8>
    decreases payloads.len(),
{
    if payloads.len() == 0 {
        Seq::empty()
    } else {
        frames_of(payloads.drop_last()) + record_frame(payloads.last())
    }
}

/// Frames each payload as one record, in order, into one byte stream.
pub fn frame_records(payloads: &Vec<Vec<u8>>) -> (r: Vec<u8>)
    requires
        forall|i: int| 0 <= i < payloads@.len() ==> (#[trigger] payloads@[i])@.len() + 16 <= usize::MAX,
    ensures
        r@ == frames_of(payloads@.map_values(|p: Vec<u8>| p@)),
{
    let ghost views = payloads@.map_values(|p: Vec<u8>| p@);
    let mut out: Vec<u8> = Vec::new();
    let mut i: usize = 0;
    while i < payloads.len()
        invariant
            i <= payloads@.len(),
            views == payloads@.map_values(|p: Vec<u8>| p@),
            forall|j: int| 0 <= j < payloads@.len() ==> (#[trigger] payloads@[j])@.len() + 16 <= usize::MAX,
            out@ == frames_of(views.take(i as int)),
        decreases payloads.len() - i,
    {
        assert(views.take(i as int + 1).drop_last() =~= views.take(i as int));
        write_raw_record(&mut out, payloads[i].as_slice());
        i = i + 1;
    }
    assert(views.take(i as int) =~= views);
    out
}

proof fn lemma_le64_round_trip(v: u64)
    ensures
        le64_value(le64(v)) == v,
{
    let b = le64(v);
    assert(b[0] == (v & 0xff) as u8 && b[1] == ((v >> 8u64) & 0xff) as u8 && b[2] == ((v >> 16u64) & 0xff) as u8
        && b[3] == ((v >> 24u64) & 0xff) as u8 && b[4] == ((v >> 32u64) & 0xff) as u8 && b[5] == ((v >> 40u64)
        & 0xff) as u8 && b[6] == ((v >> 48u64) & 0xff) as u8 && b[7] == ((v >> 56u64) & 0xff) as u8);
    let (b0, b1, b2, b3, b4, b5, b6, b7) = (b[0], b[1], b[2], b[3], b[4], b[5], b[6], b[7]);
    assert((b0 as u64) | ((b1 as u64) << 8u64) | ((b2 as u64) << 16u64) | ((b3 as u64) << 24u64) | ((b4 as u64)
        << 32u64) | ((b5 as u64) << 40u64) | ((b6 as u64) << 48u64) | ((b7 as u64) << 56u64) == v) by (bit_vector)
        requires
            b0 == (v & 0xff) as u8,
            b1 == ((v >> 8u64) & 0xff) as u8,
            b2 == ((v >> 16u64) & 0xff) as u8,
            b3 == ((v >> 24u64) & 0xff) as u8,
            b4 == ((v >> 32u64) & 0xff) as u8,
            b5 == ((v >> 40u64) & 0xff) as u8,
            b6 == ((v >> 48u64) & 0xff) as u8,
            b7 == ((v >> 56u64) & 0xff) as u8,
    ;
}

proof fn lemma_le32_round_trip(v: u32)
    ensures
        le32_value(le32(v)) == v,
{
    let b = le32(v);
    assert(b[0] == (v & 0xff) as u8 && b[1] == ((v >> 8u32) & 0xff) as u8 && b[2] == ((v >> 16u32) & 0xff) as u8
        && b[3] == ((v >> 24u32) & 0xff) as u8);
    let (b0, b1, b2, b3) = (b[0], b[1], b[2], b[3]);
    assert((b0 as u32) | ((b1 as u32) << 8u32) | ((b2 as u32) << 16u32) | ((b3 as u32) << 24u32) == v) by (bit_vector)
        requires
            b0 == (v & 0xff) as u8,
            b1 == ((v >> 8u32) & 0xff) as u8,
            b2 == ((v >> 16u32) & 0xff) as u8,
            b3 == ((v >> 24u32) & 0xff) as u8,
    ;
}

proof fn lemma_frames_append(a: Seq<Seq<u8>>, b: Seq<Seq<u8>>)
    ensures
        frames_of(a + b) == frames_of(a) + frames_of(b),
    decreases b.len(),
{
    if b.len() == 0 {
        assert(a + b =~= a);
        assert(frames_of(a) + frames_of(b) =~= frames_of(a));
    } else {
        assert((a + b).drop_last() =~= a + b.drop_last());
        assert((a + b).last() == b.last());
        lemma_frames_append(a, b.drop_last());
        assert(frames_of(a + b) =~= frames_of(a) + frames_of(b));
    }
}

/// Every payload fits a record.
pub open spec fn payloads_fit(payloads: Seq<Seq<u8>>) -> bool {
    forall|i: int| 0 <= i < payloads.len() ==> (#[trigger] payloads[i]).len() + 16 <= u64::MAX
}

proof fn lemma_frames_split(ps: Seq<Seq<u8>>, k: int)
    requires
        0 <= k < ps.len(),
    ensures
        frames_of(ps) == frames_of(ps.take(k)) + record_frame(ps[k]) + frames_of(ps.skip(k + 1)),
        frames_of(ps.take(k + 1)) == frames_of(ps.take(k)) + record_frame(ps[k]),
{
    let p = ps[k];
    let one = seq![p];
    assert(one.drop_last() =~= Seq::<Seq<u8>>::empty());
    assert(one.last() == p);
    assert(frames_of(one) == frames_of(one.drop_last()) + record_frame(p));
    assert(frames_of(Seq::<Seq<u8>>::empty()) == Seq::<u8>::empty());
    assert(frames_of(one) =~= record_frame(p));
    lemma_frames_append(ps.take(k), ps.skip(k));
    assert(ps.take(k) + ps.skip(k) =~= ps);
    assert(ps.skip(k) =~= one + ps.skip(k + 1));
    lemma_frames_append(one, ps.skip(k + 1));
    lemma_frames_append(ps.take(k), one);
    assert(ps.take(k) + one =~= ps.take(k + 1));
    assert(frames_of(ps) =~= frames_of(ps.take(k)) + record_frame(p) + frames_of(ps.skip(k + 1)));
}

proof fn lemma_frame_fields(head: Seq<u8>, p: Seq<u8>, tail: Seq<u8>)
    requires
        p.len() + 16 <= u64::MAX,
    ensures
        ({
            let data = head + record_frame(p) + tail;
            let o = head.len() as int;
            let len = p.len() as int;
            &&& data.len() >= o + 16 + len
            &&& le64_value(data.subrange(o, o + 8)) as int == len
            &&& le32_value(data.subrange(o + 8, o + 12)) == masked_of(crc32c_of(data.subrange(o, o + 8)))
            &&& le32_value(data.subrange(o + 12 + len, o + 16 + len)) == masked_of(crc32c_of(data.subrange(o + 12, o + 12 + len)))
        }),
{
    let data = head + record_frame(p) + tail;
    let o = head.len() as int;
    let len = p.len() as int;
    assert(data.subrange(o, o + 8) =~= le64(len as u64));
    assert(data.subrange(o + 8, o + 12) =~= le32(masked_of(crc32c_of(le64(len as u64)))));
    assert(data.subrange(o + 12, o + 12 + len) =~= p);
    assert(data.subrange(o + 12 + len, o + 16 + len) =~= le32(masked_of(crc32c_of(p))));
    lemma_le64_round_trip(len as u64);
    lemma_le32_round_trip(masked_of(crc32c_of(le64(len as u64))));
    lemma_le32_round_trip(masked_of(crc32c_of(p)));
}

proof fn lemma_scan_frames(ps: Seq<Seq<u8>>, k: int, rest: Seq<u8>)
    requires
        0 <= k <= ps.len(),
        payloads_fit(ps),
    ensures
        scan_records(frames_of(ps) + rest, frames_of(ps.take(k)).len() as int, k, ps.len() as int) == Ok::<int, TfRecordError>(ps.len() as int),
    decreases ps.len() - k,
{
    let n = ps.len() as int;
    if k < n {
        let p = ps[k];
        lemma_frames_split(ps, k);
        let head = frames_of(ps.take(k));
        let tail = frames_of(ps.skip(k + 1)) + rest;
        assert(frames_of(ps) + rest =~= head + record_frame(p) + tail);
        assert(p.len() + 16 <= u64::MAX);
        lemma_frame_fields(head, p, tail);
        lemma_scan_frames(ps, k + 1, rest);
    } else {
        assert(ps.take(k) =~= ps);
    }
}

/// Reading back what the writer framed succeeds: a stream holding the
/// frames of `n` payloads, followed by anything, checks out as `n` records.
pub proof fn lemma_frames_read_back(payloads: Seq<Seq<u8>>, rest: Seq<u8>)
    requires
        payloads_fit(payloads),
    ensures
        check_records(frames_of(payloads) + rest, payloads.len() as int) == Ok::<(), TfRecordError>(()),
{
    assert(payloads.take(0) =~= Seq::<Seq<u8>>::empty());
    lemma_scan_frames(payloads, 0, rest);
}

} // verus!
