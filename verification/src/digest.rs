//! Length-framed transcripts and their SHA-256 digests.
//!
//! A transcript is a domain followed by labelled fields. Every part is
//! preceded by its length and every field by a presence mark, so a byte
//! string is the transcript of at most one domain and field list.

use vstd::prelude::*;
use vstd::string::StringSliceAdditionalSpecFns;

verus! {

/// A SHA-256 digest.
pub type Sha256Digest = [u8; 32];

/// The digest that stands for an absent binding.
pub open spec fn zero_digest() -> Sha256Digest {
    vstd::array::spec_array_fill_for_copy_type::<u8, 32>(0u8)
}

/// The digest that stands for an absent binding.
pub fn no_digest() -> (digest: Sha256Digest)
    ensures
        digest == zero_digest(),
{
    [0u8; 32]
}

/// The `width` low bytes of a value, least significant first.
pub open spec fn le_bytes(value: int, width: nat) -> Seq<u8>
    decreases width,
{
    if width == 0 {
        Seq::empty()
    } else {
        seq![(value % 256) as u8] + le_bytes(value / 256, (width - 1) as nat)
    }
}

/// The exclusive bound of the values that `width` bytes hold.
pub open spec fn byte_range(width: nat) -> int
    decreases width,
{
    if width == 0 {
        1
    } else {
        256 * byte_range((width - 1) as nat)
    }
}

/// An encoding in `width` bytes has exactly that length.
pub proof fn le_bytes_len(value: int, width: nat)
    ensures
        le_bytes(value, width).len() == width,
    decreases width,
{
    if width > 0 {
        le_bytes_len(value / 256, (width - 1) as nat);
    }
}

/// Every encoding has the width that was asked for.
pub proof fn le_bytes_len_all()
    ensures
        forall|value: int, width: nat| (#[trigger] le_bytes(value, width)).len() == width,
{
    assert forall|value: int, width: nat| (#[trigger] le_bytes(value, width)).len() == width by {
        le_bytes_len(value, width);
    }
}

/// Values in range are told apart by their little-endian bytes.
pub proof fn le_bytes_injective(left: int, right: int, width: nat)
    requires
        0 <= left < byte_range(width),
        0 <= right < byte_range(width),
        le_bytes(left, width) == le_bytes(right, width),
    ensures
        left == right,
    decreases width,
{
    if width > 0 {
        let rest = (width - 1) as nat;
        let l = le_bytes(left, width);
        let r = le_bytes(right, width);
        assert(l[0] == r[0]);
        assert(l.subrange(1, l.len() as int) =~= le_bytes(left / 256, rest));
        assert(r.subrange(1, r.len() as int) =~= le_bytes(right / 256, rest));
        le_bytes_injective(left / 256, right / 256, rest);
    }
}

proof fn byte_range_values()
    ensures
        byte_range(1) == 0x100,
        byte_range(4) == 0x1_0000_0000,
        byte_range(8) == 0x1_0000_0000_0000_0000,
{
    reveal_with_fuel(byte_range, 9);
}

/// Two 64-bit values with the same bytes are the same value.
pub proof fn le_bytes_u64_injective(left: u64, right: u64)
    requires
        le_bytes(left as int, 8) == le_bytes(right as int, 8),
    ensures
        left == right,
{
    byte_range_values();
    le_bytes_injective(left as int, right as int, 8);
}

/// Two 32-bit values with the same bytes are the same value.
pub proof fn le_bytes_u32_injective(left: u32, right: u32)
    requires
        le_bytes(left as int, 4) == le_bytes(right as int, 4),
    ensures
        left == right,
{
    byte_range_values();
    le_bytes_injective(left as int, right as int, 4);
}

/// The `width` low bytes of a value, least significant first.
fn le_bytes_of(value: u64, width: usize) -> (bytes: Vec<u8>)
    ensures
        bytes@ == le_bytes(value as int, width as nat),
{
    let mut bytes: Vec<u8> = Vec::new();
    let mut rest: u64 = value;
    let mut done: usize = 0;
    proof {
        le_bytes_len(value as int, width as nat);
    }
    assert(bytes@ + le_bytes(rest as int, width as nat) =~= le_bytes(value as int, width as nat));
    while done < width
        invariant
            done <= width,
            bytes@.len() == done,
            bytes@ + le_bytes(rest as int, (width - done) as nat) == le_bytes(
                value as int,
                width as nat,
            ),
        decreases width - done,
    {
        let ghost before = bytes@;
        let low: u8 = (rest % 256) as u8;
        bytes.push(low);
        assert(le_bytes(rest as int, (width - done) as nat) == seq![low] + le_bytes(
            rest as int / 256,
            (width - done - 1) as nat,
        ));
        rest = rest / 256;
        done = done + 1;
        assert(bytes@ + le_bytes(rest as int, (width - done) as nat) =~= before + (seq![low]
            + le_bytes(rest as int, (width - done) as nat)));
    }
    assert(bytes@ =~= le_bytes(value as int, width as nat));
    bytes
}

/// The eight little-endian bytes of a 64-bit value.
pub fn u64_le(value: u64) -> (bytes: Vec<u8>)
    ensures
        bytes@ == le_bytes(value as int, 8),
{
    le_bytes_of(value, 8)
}

/// The four little-endian bytes of a 32-bit value.
pub fn u32_le(value: u32) -> (bytes: Vec<u8>)
    ensures
        bytes@ == le_bytes(value as int, 4),
{
    le_bytes_of(value as u64, 4)
}

/// A part of a transcript behind its 64-bit length.
pub open spec fn frame(part: Seq<u8>) -> Seq<u8> {
    le_bytes(part.len() as int, 8) + part
}

/// One labelled field; an absent value is told apart from an empty one.
pub struct Field {
    pub label: Seq<u8>,
    pub value: Option<Seq<u8>>,
}

/// A field that is always present.
pub open spec fn field(label: &str, value: Seq<u8>) -> Field {
    Field { label: label.spec_bytes(), value: Some(value) }
}

/// A field that may be absent.
pub open spec fn optional_field(label: &str, value: Option<Seq<u8>>) -> Field {
    Field { label: label.spec_bytes(), value }
}

/// The bytes of one field.
pub open spec fn encode_field(field: Field) -> Seq<u8> {
    match field.value {
        Some(value) => frame(field.label) + seq![1u8] + frame(value),
        None => frame(field.label) + seq![0u8],
    }
}

/// The bytes of a field list.
pub open spec fn encode_fields(fields: Seq<Field>) -> Seq<u8>
    decreases fields.len(),
{
    if fields.len() == 0 {
        Seq::empty()
    } else {
        encode_field(fields[0]) + encode_fields(fields.subrange(1, fields.len() as int))
    }
}

/// The bytes that a domain and its fields are hashed as.
pub open spec fn transcript(domain: Seq<u8>, fields: Seq<Field>) -> Seq<u8> {
    frame(domain) + encode_fields(fields)
}

/// Whether the lengths of all parts fit their 64-bit frames.
pub open spec fn framable(fields: Seq<Field>) -> bool {
    forall|i: int|
        0 <= i < fields.len() ==> {
            &&& (#[trigger] fields[i]).label.len() <= u64::MAX
            &&& fields[i].value matches Some(value) ==> value.len() <= u64::MAX
        }
}

/// A framed part is read back from any byte string that starts with it.
pub proof fn frame_prefix_injective(
    left: Seq<u8>,
    left_rest: Seq<u8>,
    right: Seq<u8>,
    right_rest: Seq<u8>,
)
    requires
        left.len() <= u64::MAX,
        right.len() <= u64::MAX,
        frame(left) + left_rest == frame(right) + right_rest,
    ensures
        left == right,
        left_rest == right_rest,
{
    let l = frame(left) + left_rest;
    let r = frame(right) + right_rest;
    le_bytes_len(left.len() as int, 8);
    le_bytes_len(right.len() as int, 8);
    assert(l.subrange(0, 8) =~= le_bytes(left.len() as int, 8));
    assert(r.subrange(0, 8) =~= le_bytes(right.len() as int, 8));
    byte_range_values();
    le_bytes_injective(left.len() as int, right.len() as int, 8);
    let n = left.len() as int;
    assert(l.subrange(8, 8 + n) =~= left);
    assert(r.subrange(8, 8 + n) =~= right);
    assert(l.subrange(8 + n, l.len() as int) =~= left_rest);
    assert(r.subrange(8 + n, r.len() as int) =~= right_rest);
}

proof fn encode_field_prefix_injective(
    left: Field,
    left_rest: Seq<u8>,
    right: Field,
    right_rest: Seq<u8>,
)
    requires
        left.label.len() <= u64::MAX,
        right.label.len() <= u64::MAX,
        left.value matches Some(value) ==> value.len() <= u64::MAX,
        right.value matches Some(value) ==> value.len() <= u64::MAX,
        encode_field(left) + left_rest == encode_field(right) + right_rest,
    ensures
        left == right,
        left_rest == right_rest,
{
    let l_tail: Seq<u8> = match left.value {
        Some(value) => seq![1u8] + (frame(value) + left_rest),
        None => seq![0u8] + left_rest,
    };
    let r_tail: Seq<u8> = match right.value {
        Some(value) => seq![1u8] + (frame(value) + right_rest),
        None => seq![0u8] + right_rest,
    };
    assert(encode_field(left) + left_rest =~= frame(left.label) + l_tail);
    assert(encode_field(right) + right_rest =~= frame(right.label) + r_tail);
    frame_prefix_injective(left.label, l_tail, right.label, r_tail);
    assert(l_tail[0] == r_tail[0]);
    let l_after = l_tail.subrange(1, l_tail.len() as int);
    let r_after = r_tail.subrange(1, r_tail.len() as int);
    match (left.value, right.value) {
        (Some(a), Some(b)) => {
            assert(l_after =~= frame(a) + left_rest);
            assert(r_after =~= frame(b) + right_rest);
            frame_prefix_injective(a, left_rest, b, right_rest);
        },
        (None, None) => {
            assert(l_after =~= left_rest);
            assert(r_after =~= right_rest);
        },
        _ => {},
    }
}

proof fn encode_fields_injective(left: Seq<Field>, right: Seq<Field>)
    requires
        framable(left),
        framable(right),
        encode_fields(left) == encode_fields(right),
    ensures
        left == right,
    decreases left.len(),
{
    if left.len() == 0 || right.len() == 0 {
        if left.len() > 0 {
            le_bytes_len(left[0].label.len() as int, 8);
            assert(encode_fields(left).len() > 0);
        }
        if right.len() > 0 {
            le_bytes_len(right[0].label.len() as int, 8);
            assert(encode_fields(right).len() > 0);
        }
        assert(left =~= right);
    } else {
        let l_rest = left.subrange(1, left.len() as int);
        let r_rest = right.subrange(1, right.len() as int);
        assert(framable(l_rest));
        assert(framable(r_rest));
        encode_field_prefix_injective(
            left[0],
            encode_fields(l_rest),
            right[0],
            encode_fields(r_rest),
        );
        encode_fields_injective(l_rest, r_rest);
        assert(left =~= seq![left[0]] + l_rest);
        assert(right =~= seq![right[0]] + r_rest);
    }
}

/// No two transcripts of different content share their bytes.
pub proof fn transcript_injective(
    left_domain: Seq<u8>,
    left: Seq<Field>,
    right_domain: Seq<u8>,
    right: Seq<Field>,
)
    requires
        left_domain.len() <= u64::MAX,
        right_domain.len() <= u64::MAX,
        framable(left),
        framable(right),
        transcript(left_domain, left) == transcript(right_domain, right),
    ensures
        left_domain == right_domain,
        left == right,
{
    frame_prefix_injective(left_domain, encode_fields(left), right_domain, encode_fields(right));
    encode_fields_injective(left, right);
}

/// The lengths of all values fit their 64-bit frames.
pub open spec fn values_framable(fields: Seq<Field>) -> bool {
    forall|i: int|
        0 <= i < fields.len() ==> ((#[trigger] fields[i]).value matches Some(value) ==> value.len()
            <= u64::MAX)
}

/// The two lists carry the same labels in the same order.
pub open spec fn same_labels(left: Seq<Field>, right: Seq<Field>) -> bool {
    &&& left.len() == right.len()
    &&& forall|i: int| 0 <= i < left.len() ==> (#[trigger] left[i]).label == right[i].label
}

proof fn same_labels_injective(left: Seq<Field>, right: Seq<Field>)
    requires
        same_labels(left, right),
        values_framable(left),
        values_framable(right),
        encode_fields(left) == encode_fields(right),
    ensures
        left == right,
    decreases left.len(),
{
    if left.len() == 0 {
        assert(left =~= right);
    } else {
        let l_rest = left.subrange(1, left.len() as int);
        let r_rest = right.subrange(1, right.len() as int);
        let label = frame(left[0].label);
        assert(left[0].label == right[0].label);
        let l_tail: Seq<u8> = match left[0].value {
            Some(value) => seq![1u8] + (frame(value) + encode_fields(l_rest)),
            None => seq![0u8] + encode_fields(l_rest),
        };
        let r_tail: Seq<u8> = match right[0].value {
            Some(value) => seq![1u8] + (frame(value) + encode_fields(r_rest)),
            None => seq![0u8] + encode_fields(r_rest),
        };
        assert(encode_fields(left) =~= label + l_tail);
        assert(encode_fields(right) =~= label + r_tail);
        assert((label + l_tail).subrange(label.len() as int, (label + l_tail).len() as int)
            =~= l_tail);
        assert((label + r_tail).subrange(label.len() as int, (label + r_tail).len() as int)
            =~= r_tail);
        assert(l_tail[0] == r_tail[0]);
        let l_after = l_tail.subrange(1, l_tail.len() as int);
        let r_after = r_tail.subrange(1, r_tail.len() as int);
        match (left[0].value, right[0].value) {
            (Some(a), Some(b)) => {
                assert(l_after =~= frame(a) + encode_fields(l_rest));
                assert(r_after =~= frame(b) + encode_fields(r_rest));
                frame_prefix_injective(a, encode_fields(l_rest), b, encode_fields(r_rest));
            },
            (None, None) => {
                assert(l_after =~= encode_fields(l_rest));
                assert(r_after =~= encode_fields(r_rest));
            },
            _ => {},
        }
        assert(left[0] == right[0]);
        assert forall|i: int| 0 <= i < l_rest.len() implies (#[trigger] l_rest[i]).label
            == r_rest[i].label by {
            assert(left[i + 1].label == right[i + 1].label);
        }
        same_labels_injective(l_rest, r_rest);
        assert(left =~= seq![left[0]] + l_rest);
        assert(right =~= seq![right[0]] + r_rest);
    }
}

/// Transcripts of one domain and one label list agree in every value.
pub proof fn transcript_values_injective(domain: Seq<u8>, left: Seq<Field>, right: Seq<Field>)
    requires
        same_labels(left, right),
        values_framable(left),
        values_framable(right),
        transcript(domain, left) == transcript(domain, right),
    ensures
        left == right,
{
    let head = frame(domain);
    let l = head + encode_fields(left);
    let r = head + encode_fields(right);
    assert(l.subrange(head.len() as int, l.len() as int) =~= encode_fields(left));
    assert(r.subrange(head.len() as int, r.len() as int) =~= encode_fields(right));
    same_labels_injective(left, right);
}

/// Transcripts of one label list agree in their domain and in every value.
pub proof fn transcript_domains_injective(
    left_domain: Seq<u8>,
    left: Seq<Field>,
    right_domain: Seq<u8>,
    right: Seq<Field>,
)
    requires
        left_domain.len() <= u64::MAX,
        right_domain.len() <= u64::MAX,
        same_labels(left, right),
        values_framable(left),
        values_framable(right),
        transcript(left_domain, left) == transcript(right_domain, right),
    ensures
        left_domain == right_domain,
        left == right,
{
    frame_prefix_injective(left_domain, encode_fields(left), right_domain, encode_fields(right));
    same_labels_injective(left, right);
}

proof fn encode_fields_push(fields: Seq<Field>, field: Field)
    ensures
        encode_fields(fields.push(field)) == encode_fields(fields) + encode_field(field),
    decreases fields.len(),
{
    reveal_with_fuel(encode_fields, 2);
    let longer = fields.push(field);
    if fields.len() == 0 {
        assert(longer.subrange(1, longer.len() as int) =~= Seq::<Field>::empty());
        assert(encode_fields(longer) =~= encode_fields(fields) + encode_field(field));
    } else {
        let rest = fields.subrange(1, fields.len() as int);
        assert(longer.subrange(1, longer.len() as int) =~= rest.push(field));
        encode_fields_push(rest, field);
        assert(encode_fields(longer) =~= encode_fields(fields) + encode_field(field));
    }
}

/// What SHA-256 gives for a message.
pub uninterp spec fn sha256(message: Seq<u8>) -> [u8; 32];

/// Calls `sha2::Sha256::digest`: the digest of a message is a function of
/// its bytes alone. Nothing else is claimed of the function.
#[verifier::external_body]
fn sha256_digest(message: &[u8]) -> (digest: [u8; 32])
    ensures
        digest == sha256(message@),
{
    <sha2::Sha256 as sha2::Digest>::digest(message).into()
}

/// A transcript under construction.
pub struct FramedSha256 {
    bytes: Vec<u8>,
    domain: Ghost<Seq<u8>>,
    fields: Ghost<Seq<Field>>,
}

fn append(bytes: &mut Vec<u8>, part: &[u8])
    ensures
        final(bytes)@ == old(bytes)@ + part@,
{
    let ghost before = bytes@;
    let mut done: usize = 0;
    while done < part.len()
        invariant
            done <= part@.len(),
            bytes@ == before + part@.subrange(0, done as int),
        decreases part@.len() - done,
    {
        bytes.push(part[done]);
        done = done + 1;
        assert(bytes@ =~= before + part@.subrange(0, done as int));
    }
    assert(part@.subrange(0, done as int) =~= part@);
    assert(bytes@ =~= before + part@);
}

fn append_frame(bytes: &mut Vec<u8>, part: &[u8])
    ensures
        final(bytes)@ == old(bytes)@ + frame(part@),
{
    let ghost before = bytes@;
    let length: Vec<u8> = u64_le(part.len() as u64);
    append(bytes, length.as_slice());
    append(bytes, part);
    assert(bytes@ =~= before + frame(part@));
}

impl FramedSha256 {
    #[verifier::type_invariant]
    spec fn inv(self) -> bool {
        self.bytes@ == transcript(self.domain@, self.fields@)
    }

    /// The domain that the transcript was opened with.
    pub closed spec fn domain(self) -> Seq<u8> {
        self.domain@
    }

    /// The fields that were appended so far.
    pub closed spec fn fields(self) -> Seq<Field> {
        self.fields@
    }

    /// Opens a transcript.
    pub fn new(domain: &str) -> (builder: FramedSha256)
        ensures
            builder.domain() == domain.spec_bytes(),
            builder.fields() == Seq::<Field>::empty(),
    {
        let mut bytes: Vec<u8> = Vec::new();
        append_frame(&mut bytes, domain.as_bytes());
        assert(bytes@ =~= transcript(domain.spec_bytes(), Seq::empty()));
        FramedSha256 { bytes, domain: Ghost(domain.spec_bytes()), fields: Ghost(Seq::empty()) }
    }

    /// Appends a field that is always present.
    pub fn required(self, label: &str, value: &[u8]) -> (builder: FramedSha256)
        ensures
            builder.domain() == self.domain(),
            builder.fields() == self.fields().push(
                (Field { label: label.spec_bytes(), value: Some(value@) }),
            ),
    {
        self.optional(label, Some(value))
    }

    /// Appends a field that may be absent.
    pub fn optional(self, label: &str, value: Option<&[u8]>) -> (builder: FramedSha256)
        ensures
            builder.domain() == self.domain(),
            builder.fields() == self.fields().push(
                (Field {
                    label: label.spec_bytes(),
                    value: match value {
                        Some(bytes) => Some(bytes@),
                        None => None,
                    },
                }),
            ),
    {
        proof {
            use_type_invariant(&self);
        }
        let ghost field = Field {
            label: label.spec_bytes(),
            value: match value {
                Some(bytes) => Some(bytes@),
                None => None,
            },
        };
        let FramedSha256 { bytes: mut bytes, domain, fields } = self;
        let ghost before = bytes@;
        append_frame(&mut bytes, label.as_bytes());
        match value {
            Some(part) => {
                bytes.push(1u8);
                append_frame(&mut bytes, part);
            },
            None => {
                bytes.push(0u8);
            },
        }
        proof {
            encode_fields_push(fields@, field);
            assert(bytes@ =~= before + encode_field(field));
            assert(bytes@ =~= transcript(domain@, fields@.push(field)));
        }
        FramedSha256 { bytes, domain, fields: Ghost(fields@.push(field)) }
    }

    /// The digest of the finished transcript.
    pub fn finish(self) -> (digest: Sha256Digest)
        ensures
            digest == sha256(transcript(self.domain(), self.fields())),
    {
        proof {
            use_type_invariant(&self);
        }
        sha256_digest(self.bytes.as_slice())
    }
}

} // verus!
