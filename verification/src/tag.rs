use vstd::prelude::*;
use crate::errors::ErrorCode;

verus! {

/// Bytes of the type tag in front of every stored record.
pub const TAG_LEN: usize = 8;

/// The shape that a type tag announces.
#[derive(Clone, Copy, Debug, PartialEq, Eq, Structural)]
pub enum RecordKind {
    Authority,
    Badge,
}

/// The tag in front of an authority record.
pub open spec fn authority_tag() -> Seq<u8> {
    seq![187u8, 23u8, 191u8, 143u8, 249u8, 216u8, 121u8, 120u8]
}

/// The tag in front of a badge.
pub open spec fn badge_tag() -> Seq<u8> {
    seq![45u8, 29u8, 251u8, 53u8, 216u8, 110u8, 121u8, 151u8]
}

/// The tag of each shape.
pub open spec fn tag_for(kind: RecordKind) -> Seq<u8> {
    match kind {
        RecordKind::Authority => authority_tag(),
        RecordKind::Badge => badge_tag(),
    }
}

/// Whether `data` starts with `tag`.
pub open spec fn starts_with_tag(data: Seq<u8>, tag: Seq<u8>) -> bool {
    data.len() >= tag.len() && data.subrange(0, tag.len() as int) == tag
}

/// What the first bytes of stored data say of the rest: the shape they
/// announce, or that the data is no record of this program.
pub open spec fn tag_verdict(data: Seq<u8>) -> Result<RecordKind, ErrorCode> {
    if starts_with_tag(data, authority_tag()) {
        Ok(RecordKind::Authority)
    } else if starts_with_tag(data, badge_tag()) {
        Ok(RecordKind::Badge)
    } else {
        Err(ErrorCode::WrongRecordType)
    }
}

/// The tag to write in front of a record of the given shape.
pub fn tag_of(kind: RecordKind) -> (tag: [u8; 8])
    ensures
        tag@ == tag_for(kind),
{
    let tag: [u8; 8] = match kind {
        RecordKind::Authority => [187, 23, 191, 143, 249, 216, 121, 120],
        RecordKind::Badge => [45, 29, 251, 53, 216, 110, 121, 151],
    };
    assert(tag@ =~= tag_for(kind));
    tag
}

fn starts_with(data: &[u8], tag: &[u8; 8]) -> (yes: bool)
    ensures
        yes == starts_with_tag(data@, tag@),
{
    if data.len() < TAG_LEN {
        return false;
    }
    let mut i: usize = 0;
    while i < TAG_LEN
        invariant
            i <= TAG_LEN,
            data@.len() >= TAG_LEN,
            tag@.len() == TAG_LEN,
            forall|k: int| 0 <= k < i ==> data@[k] == tag@[k],
        decreases TAG_LEN - i,
    {
        if data[i] != tag[i] {
            assert(data@.subrange(0, 8)[i as int] != tag@[i as int]);
            return false;
        }
        i += 1;
    }
    assert(data@.subrange(0, 8) =~= tag@);
    true
}

/// Reads the type tag of stored data. The rest of the data is to be read
/// only after this has said which shape it has.
pub fn read_tag(data: &[u8]) -> (out: Result<RecordKind, ErrorCode>)
    ensures
        out == tag_verdict(data@),
{
    let authority = tag_of(RecordKind::Authority);
    let badge = tag_of(RecordKind::Badge);
    if starts_with(data, &authority) {
        Ok(RecordKind::Authority)
    } else if starts_with(data, &badge) {
        Ok(RecordKind::Badge)
    } else {
        Err(ErrorCode::WrongRecordType)
    }
}

/// Data that starts with the tag of a shape is read as that shape, whatever
/// follows the tag.
pub proof fn lemma_tag_round_trip(kind: RecordKind, rest: Seq<u8>)
    ensures
        tag_verdict(tag_for(kind) + rest) == Ok::<RecordKind, ErrorCode>(kind),
{
    let data = tag_for(kind) + rest;
    assert(data.subrange(0, 8) =~= tag_for(kind));
    assert(authority_tag()[0] != badge_tag()[0]);
}

} // verus!
