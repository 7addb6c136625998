use vstd::prelude::*;

use crate::info::Kind;
use crate::keys::to_hardware_spec;
use crate::Error;

verus! {

/// Payload bytes in the first report of the fixed two-report transfer.
pub const LEGACY_FIRST_CHUNK: usize = 7749;

/// Payload bytes in the second report of the fixed two-report transfer.
pub const LEGACY_SECOND_CHUNK: usize = 7803;

/// Largest sequence number that a report header can carry.
pub const MAX_SEQUENCE: usize = 65535;

pub open spec fn zeros(n: int) -> Seq<u8> {
    Seq::new(n as nat, |i: int| 0u8)
}

pub open spec fn low_byte(x: u16) -> u8 {
    (x % 256) as u8
}

pub open spec fn high_byte(x: u16) -> u8 {
    (x / 256) as u8
}

/// The fields written at the start of an image report. Second-generation
/// panels carry the payload length; the others leave it out.
pub open spec fn header_fields(
    kind: Kind,
    key: u8,
    sequence: u16,
    is_last: bool,
    payload_len: u16,
) -> Seq<u8> {
    let flag: u8 = if is_last {
        1
    } else {
        0
    };
    if kind.is_v2_spec() {
        seq![
            0x02u8,
            0x07u8,
            key,
            flag,
            low_byte(payload_len),
            high_byte(payload_len),
            low_byte(sequence),
            high_byte(sequence),
        ]
    } else {
        seq![0x02u8, 0x01u8, low_byte(sequence), high_byte(sequence), flag, key]
    }
}

/// A whole image report header: its fields, then zeros up to the header length.
pub open spec fn image_header_spec(
    kind: Kind,
    key: u8,
    sequence: u16,
    is_last: bool,
    payload_len: u16,
) -> Seq<u8> {
    let fields = header_fields(kind, key, sequence, is_last, payload_len);
    fields + zeros(kind.image_report_header_len_spec() - fields.len())
}

/// Room for payload in the first report of a variable-length transfer.
pub open spec fn first_capacity(kind: Kind) -> int {
    kind.image_report_len_spec() - kind.image_report_header_len_spec() - kind.image_base_spec().len()
}

/// Room for payload in every later report of a variable-length transfer.
pub open spec fn capacity(kind: Kind) -> int {
    kind.image_report_len_spec() - kind.image_report_header_len_spec()
}

/// Room for payload in report `i` of a variable-length transfer.
pub open spec fn chunk_capacity(kind: Kind, i: int) -> int {
    if i == 0 {
        first_capacity(kind)
    } else {
        capacity(kind)
    }
}

/// Payload bytes carried by the reports before report `i`, for a payload of `len` bytes.
pub open spec fn chunk_start(kind: Kind, len: int, i: int) -> int {
    if i <= 0 {
        0
    } else if len <= first_capacity(kind) + (i - 1) * capacity(kind) {
        len
    } else {
        first_capacity(kind) + (i - 1) * capacity(kind)
    }
}

/// Payload bytes carried by report `i`.
pub open spec fn chunk_take(kind: Kind, len: int, i: int) -> int {
    chunk_start(kind, len, i + 1) - chunk_start(kind, len, i)
}

/// Whether report `i` carries the rest of the payload.
pub open spec fn chunk_is_last(kind: Kind, len: int, i: int) -> bool {
    chunk_take(kind, len, i) == len - chunk_start(kind, len, i)
}

/// Number of reports of a variable-length transfer.
pub open spec fn generic_report_count(kind: Kind, len: int) -> int {
    if len <= 0 {
        0
    } else if len <= first_capacity(kind) {
        1
    } else {
        1 + (len - first_capacity(kind) + capacity(kind) - 1) / capacity(kind)
    }
}

/// Sum of the payload bytes of reports `0 .. k`.
pub open spec fn carried(kind: Kind, len: int, k: nat) -> int
    decreases k,
{
    if k == 0 {
        0
    } else {
        carried(kind, len, (k - 1) as nat) + chunk_take(kind, len, k - 1)
    }
}

/// Report `i` of a variable-length transfer of `payload` to hardware key `key`.
pub open spec fn generic_report_spec(kind: Kind, key: u8, payload: Seq<u8>, i: int) -> Seq<u8> {
    let len = payload.len() as int;
    let start = chunk_start(kind, len, i);
    let take = chunk_take(kind, len, i);
    let prefix = if i == 0 {
        kind.image_base_spec()
    } else {
        Seq::empty()
    };
    let head = image_header_spec(kind, key, i as u16, chunk_is_last(kind, len, i), take as u16);
    head + prefix + payload.subrange(start, start + take) + zeros(
        kind.image_report_len_spec() - head.len() - prefix.len() - take,
    )
}

/// Payload bytes carried by report `i` of the fixed two-report transfer.
pub open spec fn legacy_take(i: int) -> int {
    if i == 0 {
        LEGACY_FIRST_CHUNK as int
    } else {
        LEGACY_SECOND_CHUNK as int
    }
}

/// Report `i` (0 or 1) of the fixed two-report transfer. The header numbers
/// the reports from 1 and gives no payload length.
pub open spec fn legacy_report_spec(kind: Kind, key: u8, payload: Seq<u8>, i: int) -> Seq<u8> {
    let head = image_header_spec(kind, key, (i + 1) as u16, i == 1, 0);
    let prefix = if i == 0 {
        kind.image_base_spec()
    } else {
        Seq::empty()
    };
    let start = if i == 0 {
        0
    } else {
        LEGACY_FIRST_CHUNK as int
    };
    head + prefix + payload.subrange(start, start + legacy_take(i)) + zeros(
        kind.image_report_len_spec() - head.len() - prefix.len() - legacy_take(i),
    )
}

/// Number of reports that carry a payload of `len` bytes.
pub open spec fn report_count_spec(kind: Kind, len: int) -> int {
    if kind.uses_legacy_protocol_spec() {
        2
    } else {
        generic_report_count(kind, len)
    }
}

/// Report `i` of the transfer of `payload` to hardware key `key`.
pub open spec fn image_report_spec(kind: Kind, key: u8, payload: Seq<u8>, i: int) -> Seq<u8> {
    if kind.uses_legacy_protocol_spec() {
        legacy_report_spec(kind, key, payload, i)
    } else {
        generic_report_spec(kind, key, payload, i)
    }
}

/// Whether a prepared payload of `len` bytes can be sent to the panel:
/// a bitmap is exactly one key image, and every report number fits its field.
pub open spec fn payload_fits(kind: Kind, len: int) -> bool {
    &&& (kind.image_mode_spec() == crate::info::ImageMode::Bmp ==> len
        == kind.image_size_bytes_spec())
    &&& len <= first_capacity(kind) + MAX_SEQUENCE * capacity(kind)
}

proof fn lemma_capacities(kind: Kind)
    ensures
        first_capacity(kind) >= 954,
        capacity(kind) >= 1008,
        !kind.uses_legacy_protocol_spec() ==> capacity(kind) <= 1016,
{
}

/// The next report starts where the previous one ended, and carries as much
/// of the rest as fits.
proof fn lemma_chunk_step(kind: Kind, len: int, i: int)
    requires
        0 <= i,
        0 <= len,
    ensures
        0 <= chunk_start(kind, len, i) <= len,
        chunk_take(kind, len, i) == if len - chunk_start(kind, len, i) <= chunk_capacity(kind, i) {
            len - chunk_start(kind, len, i)
        } else {
            chunk_capacity(kind, i)
        },
{
    lemma_capacities(kind);
    let f = first_capacity(kind);
    let c = capacity(kind);
    if i > 0 {
        assert((i - 1) * c + c == i * c) by (nonlinear_arith);
        assert((i - 1) * c >= 0) by (nonlinear_arith)
            requires
                i > 0,
                c > 0,
        ;
    }
}

proof fn lemma_generic_count(kind: Kind, len: int)
    requires
        0 <= len,
    ensures
        0 <= generic_report_count(kind, len),
        chunk_start(kind, len, generic_report_count(kind, len)) == len,
        forall|i: int|
            0 <= i < generic_report_count(kind, len) ==> #[trigger] chunk_start(kind, len, i) < len,
{
    lemma_capacities(kind);
    let f = first_capacity(kind);
    let c = capacity(kind);
    let n = generic_report_count(kind, len);
    if len > f {
        let d = len - f;
        let m = (d + c - 1) / c;
        assert(m * c >= d && (m - 1) * c < d && m >= 1) by (nonlinear_arith)
            requires
                m == (d + c - 1) / c,
                d > 0,
                c > 0,
        ;
        assert forall|i: int| 0 <= i < n implies #[trigger] chunk_start(kind, len, i) < len by {
            if i > 0 {
                assert((i - 1) * c <= (m - 1) * c) by (nonlinear_arith)
                    requires
                        i - 1 <= m - 1,
                        c > 0,
                ;
            }
        }
    }
}

proof fn lemma_carried(kind: Kind, len: int, k: nat)
    requires
        0 <= len,
    ensures
        carried(kind, len, k) == chunk_start(kind, len, k as int),
    decreases k,
{
    if k > 0 {
        lemma_carried(kind, len, (k - 1) as nat);
    }
}

/// The variable-length transfer of a payload of any length: the payload
/// bytes of its reports add up to the payload length, exactly the last report
/// carries the rest of the payload, each report carries as much as fits, and
/// no report's header, embedded header and payload run past the report length.
pub proof fn lemma_generic_transfer(kind: Kind, len: int)
    requires
        !kind.uses_legacy_protocol_spec(),
        0 <= len,
    ensures
        carried(kind, len, generic_report_count(kind, len) as nat) == len,
        forall|i: int|
            0 <= i < generic_report_count(kind, len) ==> (#[trigger] chunk_is_last(kind, len, i)
                <==> i == generic_report_count(kind, len) - 1),
        forall|i: int|
            0 <= i < generic_report_count(kind, len) ==> #[trigger] chunk_take(kind, len, i) == if len
                - chunk_start(kind, len, i) <= chunk_capacity(kind, i) {
                len - chunk_start(kind, len, i)
            } else {
                chunk_capacity(kind, i)
            },
        forall|i: int|
            0 <= i < generic_report_count(kind, len) ==> kind.image_report_header_len_spec() + (if i
                == 0 {
                kind.image_base_spec().len() as int
            } else {
                0
            }) + #[trigger] chunk_take(kind, len, i) <= kind.image_report_len_spec(),
{
    let n = generic_report_count(kind, len);
    lemma_generic_count(kind, len);
    lemma_carried(kind, len, n as nat);
    assert forall|i: int| 0 <= i < n implies (#[trigger] chunk_is_last(kind, len, i) <==> i == n
        - 1) by {
        lemma_chunk_step(kind, len, i);
        lemma_chunk_step(kind, len, i + 1);
    }
    assert forall|i: int| 0 <= i < n implies #[trigger] chunk_take(kind, len, i) == if len
        - chunk_start(kind, len, i) <= chunk_capacity(kind, i) {
        len - chunk_start(kind, len, i)
    } else {
        chunk_capacity(kind, i)
    } by {
        lemma_chunk_step(kind, len, i);
    }
}

/// Every report of the transfer of a payload that fits is exactly one
/// report length long: header, embedded header and payload, then zeros.
pub proof fn lemma_reports_fill_report_length(kind: Kind, key: u8, payload: Seq<u8>)
    requires
        payload_fits(kind, payload.len() as int),
    ensures
        forall|i: int|
            0 <= i < report_count_spec(kind, payload.len() as int) ==> (#[trigger] image_report_spec(
                kind,
                key,
                payload,
                i,
            )).len() == kind.image_report_len_spec(),
{
    let len = payload.len() as int;
    lemma_capacities(kind);
    assert forall|i: int| 0 <= i < report_count_spec(kind, len) implies (#[trigger] image_report_spec(
        kind,
        key,
        payload,
        i,
    )).len() == kind.image_report_len_spec() by {
        if !kind.uses_legacy_protocol_spec() {
            lemma_generic_transfer(kind, len);
            lemma_generic_count(kind, len);
            lemma_chunk_step(kind, len, i);
            lemma_chunk_step(kind, len, i + 1);
        }
    }
}

/// Where report `i` of a variable-length transfer keeps its payload: after
/// the header (and the embedded header in the first report).
pub open spec fn payload_position(kind: Kind, i: int) -> int {
    kind.image_report_header_len_spec() + if i == 0 {
        kind.image_base_spec().len() as int
    } else {
        0
    }
}

/// Where the last-report flag sits in a report header.
pub open spec fn last_flag_position(kind: Kind) -> int {
    if kind.is_v2_spec() {
        3
    } else {
        4
    }
}

/// The reports of a variable-length transfer lay the payload out in order:
/// report `i` holds payload bytes `chunk_start(i) .. chunk_start(i + 1)` at
/// its payload position, consecutive reports continue where the previous
/// one stopped, from the first payload byte to the last; the last-report flag
/// is 1 in the last report and 0 in all others; and second-generation
/// headers carry the payload byte count, little-endian.
pub proof fn lemma_generic_report_layout(kind: Kind, key: u8, payload: Seq<u8>)
    requires
        !kind.uses_legacy_protocol_spec(),
        payload_fits(kind, payload.len() as int),
    ensures
        chunk_start(kind, payload.len() as int, 0) == 0,
        chunk_start(kind, payload.len() as int, generic_report_count(kind, payload.len() as int))
            == payload.len(),
        forall|i: int|
            #![trigger image_report_spec(kind, key, payload, i)]
            0 <= i < generic_report_count(kind, payload.len() as int) ==> {
                let len = payload.len() as int;
                let r = image_report_spec(kind, key, payload, i);
                let at = payload_position(kind, i);
                let take = chunk_take(kind, len, i);
                &&& chunk_start(kind, len, i + 1) == chunk_start(kind, len, i) + take
                &&& r.subrange(at, at + take) == payload.subrange(
                    chunk_start(kind, len, i),
                    chunk_start(kind, len, i + 1),
                )
                &&& r[last_flag_position(kind)] == if i == generic_report_count(kind, len) - 1 {
                    1u8
                } else {
                    0u8
                }
                &&& kind.is_v2_spec() ==> r[4] == low_byte(take as u16) && r[5] == high_byte(
                    take as u16,
                ) && take < 65536
            },
{
    let len = payload.len() as int;
    let n = generic_report_count(kind, len);
    lemma_capacities(kind);
    lemma_generic_transfer(kind, len);
    lemma_generic_count(kind, len);
    assert forall|i: int|
        #![trigger image_report_spec(kind, key, payload, i)]
        0 <= i < n implies {
        let r = image_report_spec(kind, key, payload, i);
        let at = payload_position(kind, i);
        let take = chunk_take(kind, len, i);
        &&& chunk_start(kind, len, i + 1) == chunk_start(kind, len, i) + take
        &&& r.subrange(at, at + take) == payload.subrange(
            chunk_start(kind, len, i),
            chunk_start(kind, len, i + 1),
        )
        &&& r[last_flag_position(kind)] == if i == n - 1 {
            1u8
        } else {
            0u8
        }
        &&& kind.is_v2_spec() ==> r[4] == low_byte(take as u16) && r[5] == high_byte(
            take as u16,
        ) && take < 65536
    } by {
        lemma_chunk_step(kind, len, i);
        lemma_chunk_step(kind, len, i + 1);
        assert(chunk_is_last(kind, len, i) <==> i == n - 1);
        let r = image_report_spec(kind, key, payload, i);
        let take = chunk_take(kind, len, i);
        let start = chunk_start(kind, len, i);
        let prefix = if i == 0 {
            kind.image_base_spec()
        } else {
            Seq::empty()
        };
        let head = image_header_spec(kind, key, i as u16, chunk_is_last(kind, len, i), take as u16);
        let at = payload_position(kind, i);
        assert(head.len() == kind.image_report_header_len_spec());
        assert(r == head + prefix + payload.subrange(start, start + take) + zeros(
            kind.image_report_len_spec() - head.len() - prefix.len() - take,
        ));
        assert(r.subrange(at, at + take) =~= payload.subrange(start, start + take));
    }
}

/// The fixed two-report transfer carries exactly one key image: the payload
/// bytes of its two reports add up to width * height * 3, and each report
/// fits in the report length.
pub proof fn lemma_legacy_transfer(kind: Kind)
    requires
        kind.uses_legacy_protocol_spec(),
    ensures
        legacy_take(0) + legacy_take(1) == kind.image_size_bytes_spec(),
        kind.image_report_header_len_spec() + kind.image_base_spec().len() + legacy_take(0)
            <= kind.image_report_len_spec(),
        kind.image_report_header_len_spec() + legacy_take(1) <= kind.image_report_len_spec(),
{
}

/// The two reports of the fixed transfer carry the key image in order: the
/// first after its header and the embedded bitmap header, the second after
/// its header; only the second has the last-report flag, and both are one
/// report length long.
pub proof fn lemma_legacy_report_layout(kind: Kind, key: u8, payload: Seq<u8>)
    requires
        kind.uses_legacy_protocol_spec(),
        payload.len() == kind.image_size_bytes_spec(),
    ensures
        ({
            let first = image_report_spec(kind, key, payload, 0);
            let second = image_report_spec(kind, key, payload, 1);
            let at = kind.image_report_header_len_spec() + kind.image_base_spec().len();
            let hdr = kind.image_report_header_len_spec() as int;
            &&& first.len() == kind.image_report_len_spec()
            &&& second.len() == kind.image_report_len_spec()
            &&& first.subrange(at, at + legacy_take(0)) + second.subrange(hdr, hdr + legacy_take(1))
                == payload
            &&& first[last_flag_position(kind)] == 0
            &&& second[last_flag_position(kind)] == 1
        }),
{
    let first = image_report_spec(kind, key, payload, 0);
    let second = image_report_spec(kind, key, payload, 1);
    let at = kind.image_report_header_len_spec() + kind.image_base_spec().len();
    let hdr = kind.image_report_header_len_spec() as int;
    assert(first.subrange(at, at + legacy_take(0)) =~= payload.subrange(0, legacy_take(0)));
    assert(second.subrange(hdr, hdr + legacy_take(1)) =~= payload.subrange(
        legacy_take(0),
        legacy_take(0) + legacy_take(1),
    ));
    assert(payload.subrange(0, legacy_take(0)) + payload.subrange(
        legacy_take(0),
        legacy_take(0) + legacy_take(1),
    ) =~= payload);
}

fn push_zeros(buf: &mut Vec<u8>, n: usize)
    ensures
        final(buf)@ == old(buf)@ + zeros(n as int),
{
    let ghost start = buf@;
    let mut i: usize = 0;
    while i < n
        invariant
            i <= n,
            buf@ == start + zeros(i as int),
        decreases n - i,
    {
        buf.push(0u8);
        i = i + 1;
        assert(buf@ =~= start + zeros(i as int));
    }
}

fn push_bytes(buf: &mut Vec<u8>, src: &[u8], from: usize, to: usize)
    requires
        from <= to <= src@.len(),
    ensures
        final(buf)@ == old(buf)@ + src@.subrange(from as int, to as int),
{
    let ghost start = buf@;
    let mut i: usize = from;
    while i < to
        invariant
            from <= i <= to <= src@.len(),
            buf@ == start + src@.subrange(from as int, i as int),
        decreases to - i,
    {
        buf.push(src[i]);
        i = i + 1;
        assert(buf@ =~= start + src@.subrange(from as int, i as int));
    }
}

/// Appends an image report header to `buf`.
fn push_image_header(
    kind: Kind,
    buf: &mut Vec<u8>,
    key: u8,
    sequence: u16,
    is_last: bool,
    payload_len: u16,
)
    ensures
        final(buf)@ == old(buf)@ + image_header_spec(kind, key, sequence, is_last, payload_len),
{
    let ghost start = buf@;
    let flag: u8 = if is_last {
        1
    } else {
        0
    };
    let fields: usize;
    if kind.is_v2() {
        buf.push(0x02);
        buf.push(0x07);
        buf.push(key);
        buf.push(flag);
        buf.push((payload_len % 256) as u8);
        buf.push((payload_len / 256) as u8);
        buf.push((sequence % 256) as u8);
        buf.push((sequence / 256) as u8);
        fields = 8;
    } else {
        buf.push(0x02);
        buf.push(0x01);
        buf.push((sequence % 256) as u8);
        buf.push((sequence / 256) as u8);
        buf.push(flag);
        buf.push(key);
        fields = 6;
    }
    assert(buf@ =~= start + header_fields(kind, key, sequence, is_last, payload_len));
    push_zeros(buf, kind.image_report_header_len() - fields);
    assert(buf@ =~= start + image_header_spec(kind, key, sequence, is_last, payload_len));
}

/// Fills `buf` with report `index` of the fixed two-report transfer.
fn legacy_report(kind: Kind, key: u8, payload: &[u8], base: &[u8], index: usize, buf: &mut Vec<u8>)
    requires
        kind.uses_legacy_protocol_spec(),
        payload@.len() == kind.image_size_bytes_spec(),
        base@ == kind.image_base_spec(),
        index < 2,
    ensures
        final(buf)@ == legacy_report_spec(kind, key, payload@, index as int),
{
    buf.clear();
    if index == 0 {
        push_image_header(kind, buf, key, 1, false, 0);
        push_bytes(buf, base, 0, base.len());
        push_bytes(buf, payload, 0, LEGACY_FIRST_CHUNK);
    } else {
        push_image_header(kind, buf, key, 2, true, 0);
        push_bytes(buf, payload, LEGACY_FIRST_CHUNK, LEGACY_FIRST_CHUNK + LEGACY_SECOND_CHUNK);
    }
    let fill = kind.image_report_len() - buf.len();
    push_zeros(buf, fill);
    assert(buf@ =~= legacy_report_spec(kind, key, payload@, index as int));
}

/// Fills `buf` with report `index` of a variable-length transfer, given that
/// the earlier reports carried the first `offset` payload bytes. Returns the
/// number of payload bytes that this report carries.
fn generic_report(
    kind: Kind,
    key: u8,
    payload: &[u8],
    base: &[u8],
    index: usize,
    offset: usize,
    buf: &mut Vec<u8>,
) -> (take: usize)
    requires
        !kind.uses_legacy_protocol_spec(),
        base@ == kind.image_base_spec(),
        index <= MAX_SEQUENCE,
        offset == chunk_start(kind, payload@.len() as int, index as int),
        offset < payload@.len(),
    ensures
        final(buf)@ == generic_report_spec(kind, key, payload@, index as int),
        take == chunk_take(kind, payload@.len() as int, index as int),
{
    proof {
        lemma_chunk_step(kind, payload@.len() as int, index as int);
        lemma_capacities(kind);
    }
    let room = kind.image_report_len() - kind.image_report_header_len();
    let cap = if index == 0 {
        room - base.len()
    } else {
        room
    };
    let remaining = payload.len() - offset;
    let take = if remaining <= cap {
        remaining
    } else {
        cap
    };
    let is_last = take == remaining;
    buf.clear();
    push_image_header(kind, buf, key, index as u16, is_last, take as u16);
    if index == 0 {
        push_bytes(buf, base, 0, base.len());
    }
    push_bytes(buf, payload, offset, offset + take);
    let fill = kind.image_report_len() - buf.len();
    push_zeros(buf, fill);
    assert(buf@ =~= generic_report_spec(kind, key, payload@, index as int));
    take
}

/// Frames a prepared payload for logical key `key` into the image reports
/// that carry it to the panel, in the order they are to be sent.
pub fn image_reports(kind: Kind, key: u8, payload: &[u8]) -> (r: Result<Vec<Vec<u8>>, Error>)
    ensures
        key >= kind.keys_spec() ==> r matches Err(Error::InvalidKeyIndex),
        key < kind.keys_spec() && !payload_fits(kind, payload@.len() as int) ==> r matches Err(
            Error::InvalidImageSize,
        ),
        key < kind.keys_spec() && payload_fits(kind, payload@.len() as int) ==> (r matches Ok(
            reports,
        ) && reports@.len() == report_count_spec(kind, payload@.len() as int) && forall|i: int|
            0 <= i < reports@.len() ==> #[trigger] reports@[i]@ == image_report_spec(
                kind,
                to_hardware_spec(kind, key as int) as u8,
                payload@,
                i,
            )),
{
    let mut owned: Vec<u8> = Vec::new();
    push_bytes(&mut owned, payload, 0, payload.len());
    assert(owned@ =~= payload@);
    let mut transfer = match ImageTransfer::new(kind, key, owned) {
        Ok(t) => t,
        Err(e) => return Err(e),
    };
    let ghost count = report_count_spec(kind, payload@.len() as int);
    let mut reports: Vec<Vec<u8>> = Vec::new();
    let mut buf: Vec<u8> = Vec::new();
    while transfer.next_report(&mut buf)
        invariant
            transfer.wf(),
            transfer.kind_spec() == kind,
            transfer.key_spec() == to_hardware_spec(kind, key as int) as u8,
            transfer.payload_spec() == payload@,
            count == report_count_spec(kind, payload@.len() as int),
            reports@.len() == transfer.sent(),
            0 <= transfer.sent() <= count,
            forall|i: int|
                0 <= i < reports@.len() ==> #[trigger] reports@[i]@ == image_report_spec(
                    kind,
                    to_hardware_spec(kind, key as int) as u8,
                    payload@,
                    i,
                ),
        decreases count - transfer.sent(),
    {
        reports.push(buf);
        buf = Vec::new();
    }
    Ok(reports)
}

/// A report is only sent while some payload remains, which caps the report
/// number for payloads that fit.
proof fn lemma_index_bound(kind: Kind, len: int, i: int)
    requires
        0 <= i,
        payload_fits(kind, len),
        chunk_start(kind, len, i) < len,
    ensures
        i <= MAX_SEQUENCE,
        chunk_take(kind, len, i) > 0,
{
    lemma_capacities(kind);
    lemma_chunk_step(kind, len, i);
    let c = capacity(kind);
    if i > MAX_SEQUENCE {
        assert((i - 1) * c >= MAX_SEQUENCE * c) by (nonlinear_arith)
            requires
                i - 1 >= MAX_SEQUENCE,
                c > 0,
        ;
    }
}

/// One image transfer in progress: the reports of a payload are produced one
/// at a time into a buffer that the caller reuses and sends after each step.
pub struct ImageTransfer {
    kind: Kind,
    key: u8,
    payload: Vec<u8>,
    base: Vec<u8>,
    index: usize,
    offset: usize,
}

impl ImageTransfer {
    pub closed spec fn kind_spec(&self) -> Kind {
        self.kind
    }

    /// Hardware index of the key being written.
    pub closed spec fn key_spec(&self) -> u8 {
        self.key
    }

    pub closed spec fn payload_spec(&self) -> Seq<u8> {
        self.payload@
    }

    /// Number of reports produced so far.
    pub closed spec fn sent(&self) -> int {
        self.index as int
    }

    pub closed spec fn wf(&self) -> bool {
        let len = self.payload@.len() as int;
        &&& payload_fits(self.kind, len)
        &&& self.base@ == self.kind.image_base_spec()
        &&& self.index <= report_count_spec(self.kind, len)
        &&& (self.kind.uses_legacy_protocol_spec() ==> len == self.kind.image_size_bytes_spec())
        &&& (!self.kind.uses_legacy_protocol_spec() ==> {
            &&& self.offset == chunk_start(self.kind, len, self.index as int)
            &&& chunk_start(self.kind, len, generic_report_count(self.kind, len)) == len
            &&& forall|i: int|
                0 <= i < generic_report_count(self.kind, len) ==> #[trigger] chunk_start(
                    self.kind,
                    len,
                    i,
                ) < len
        })
    }

    /// Starts the transfer of a prepared payload to logical key `key`.
    pub fn new(kind: Kind, key: u8, payload: Vec<u8>) -> (r: Result<ImageTransfer, Error>)
        ensures
            key >= kind.keys_spec() ==> r matches Err(Error::InvalidKeyIndex),
            key < kind.keys_spec() && !payload_fits(kind, payload@.len() as int) ==> r matches Err(
                Error::InvalidImageSize,
            ),
            key < kind.keys_spec() && payload_fits(kind, payload@.len() as int) ==> (r matches Ok(
                t,
            ) && t.wf() && t.sent() == 0 && t.kind_spec() == kind && t.key_spec()
                == to_hardware_spec(kind, key as int) as u8 && t.payload_spec() == payload@),
    {
        let hw = match kind.translate_key_index(key) {
            Ok(h) => h,
            Err(e) => return Err(e),
        };
        proof {
            lemma_capacities(kind);
            lemma_generic_count(kind, payload@.len() as int);
        }
        let room = kind.image_report_len() - kind.image_report_header_len();
        let base = kind.image_base();
        if let crate::info::ImageMode::Bmp = kind.image_mode() {
            if payload.len() != kind.image_size_bytes() {
                return Err(Error::InvalidImageSize);
            }
        }
        if payload.len() > (room - base.len()) + MAX_SEQUENCE * room {
            return Err(Error::InvalidImageSize);
        }
        Ok(ImageTransfer { kind, key: hw, payload, base, index: 0, offset: 0 })
    }

    /// Number of reports that the whole transfer takes.
    pub fn report_count(&self) -> (r: usize)
        requires
            self.wf(),
        ensures
            r == report_count_spec(self.kind_spec(), self.payload_spec().len() as int),
    {
        proof {
            lemma_capacities(self.kind);
            lemma_generic_count(self.kind, self.payload@.len() as int);
        }
        if self.kind.uses_legacy_protocol() {
            2
        } else {
            let len = self.payload.len();
            let first = self.kind.image_report_len() - self.kind.image_report_header_len()
                - self.base.len();
            let room = self.kind.image_report_len() - self.kind.image_report_header_len();
            if len == 0 {
                0
            } else if len <= first {
                1
            } else {
                1 + (len - first + room - 1) / room
            }
        }
    }

    /// Fills `buf` with the next report and returns true, or returns false
    /// once every report has been produced.
    pub fn next_report(&mut self, buf: &mut Vec<u8>) -> (more: bool)
        requires
            old(self).wf(),
        ensures
            final(self).wf(),
            final(self).kind_spec() == old(self).kind_spec(),
            final(self).key_spec() == old(self).key_spec(),
            final(self).payload_spec() == old(self).payload_spec(),
            old(self).sent() < report_count_spec(
                old(self).kind_spec(),
                old(self).payload_spec().len() as int,
            ) ==> more && final(self).sent() == old(self).sent() + 1 && final(buf)@
                == image_report_spec(
                old(self).kind_spec(),
                old(self).key_spec(),
                old(self).payload_spec(),
                old(self).sent(),
            ),
            old(self).sent() >= report_count_spec(
                old(self).kind_spec(),
                old(self).payload_spec().len() as int,
            ) ==> !more && final(self).sent() == old(self).sent() && final(buf)@ == old(buf)@,
    {
        let ghost len = self.payload@.len() as int;
        if self.kind.uses_legacy_protocol() {
            if self.index >= 2 {
                return false;
            }
            legacy_report(self.kind, self.key, self.payload.as_slice(), self.base.as_slice(), self.index, buf);
            self.index = self.index + 1;
            return true;
        }
        if self.offset >= self.payload.len() {
            proof {
                if (self.index as int) < generic_report_count(self.kind, len) {
                    assert(chunk_start(self.kind, len, self.index as int) < len);
                }
            }
            return false;
        }
        proof {
            assert((self.index as int) < generic_report_count(self.kind, len));
            lemma_index_bound(self.kind, len, self.index as int);
            lemma_chunk_step(self.kind, len, self.index as int);
            lemma_chunk_step(self.kind, len, self.index as int + 1);
        }
        let take = generic_report(
            self.kind,
            self.key,
            self.payload.as_slice(),
            self.base.as_slice(),
            self.index,
            self.offset,
            buf,
        );
        self.offset = self.offset + take;
        self.index = self.index + 1;
        true
    }
}

} // verus!
