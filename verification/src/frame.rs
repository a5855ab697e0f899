//! The frame of a publish request: two byte strings, each behind its length.

use crate::error::{bad_request, AppError};
use vstd::prelude::*;
use vstd::slice::slice_subrange;

verus! {

use crate::error::Fault;

/// What a publish request may hold beside its tarball, in bytes.
pub const METADATA_ALLOWANCE: usize = 1048576;

/// The metadata and the tarball of a publish request.
pub struct PublishFrame<'a> {
    pub metadata: &'a [u8],
    pub tarball: &'a [u8],
}

/// The number that four bytes write, the low byte first.
pub open spec fn le32(bytes: Seq<u8>) -> nat {
    (bytes[0] + 0x100 * bytes[1] + 0x10000 * bytes[2] + 0x1000000 * bytes[3]) as nat
}

/// The number in the four bytes at a place.
pub open spec fn le32_at(body: Seq<u8>, at: int) -> nat {
    le32(body.subrange(at, at + 4))
}

/// Four bytes that write a number, the low byte first.
pub open spec fn le32_bytes(n: nat) -> Seq<u8> {
    seq![
        (n % 0x100) as u8,
        (n / 0x100 % 0x100) as u8,
        (n / 0x10000 % 0x100) as u8,
        (n / 0x1000000 % 0x100) as u8,
    ]
}

/// Where the metadata of a publish request ends.
pub open spec fn metadata_end(body: Seq<u8>) -> int {
    le32_at(body, 0) as int + 4
}

/// The metadata of a publish request.
pub open spec fn metadata_of(body: Seq<u8>) -> Seq<u8> {
    body.subrange(4, metadata_end(body))
}

/// Where the tarball of a publish request ends.
pub open spec fn tarball_end(body: Seq<u8>) -> int {
    metadata_end(body) + 4 + le32_at(body, metadata_end(body))
}

/// The tarball of a publish request.
pub open spec fn tarball_of(body: Seq<u8>) -> Seq<u8> {
    body.subrange(metadata_end(body) + 4, tarball_end(body))
}

/// What is wrong with the frame of a publish request; the first fault counts.
pub open spec fn frame_fault(body: Seq<u8>, max_tarball_bytes: usize) -> Option<Fault> {
    if body.len() > max_tarball_bytes + METADATA_ALLOWANCE {
        Some(Fault::BadRequest("publish payload too large"@))
    } else if body.len() < 4 {
        Some(Fault::BadRequest("publish body too short"@))
    } else if metadata_end(body) > usize::MAX {
        Some(Fault::BadRequest("publish metadata too large"@))
    } else if metadata_end(body) > body.len() {
        Some(Fault::BadRequest("publish metadata length mismatch"@))
    } else if metadata_end(body) + 4 > body.len() {
        Some(Fault::BadRequest("publish body too short"@))
    } else if tarball_end(body) > usize::MAX {
        Some(Fault::BadRequest("crate tarball too large"@))
    } else if tarball_end(body) > body.len() {
        Some(Fault::BadRequest("crate tarball length mismatch"@))
    } else if tarball_end(body) != body.len() {
        Some(Fault::BadRequest("publish body contains trailing data"@))
    } else if tarball_of(body).len() > max_tarball_bytes {
        Some(Fault::BadRequest("crate tarball too large"@))
    } else {
        None
    }
}

/// Reads four bytes as a number, the low byte first, and moves the cursor
/// behind them. Where fewer are left the cursor stays.
pub fn read_u32_le(body: &[u8], cursor: &mut usize) -> (result: Result<u32, AppError>)
    ensures
        match result {
            Ok(number) => {
                &&& *old(cursor) + 4 <= body@.len()
                &&& number == le32_at(body@, *old(cursor) as int)
                &&& *final(cursor) == *old(cursor) + 4
            },
            Err(error) => {
                &&& *old(cursor) + 4 > body@.len()
                &&& error@ == Fault::BadRequest("publish body too short"@)
                &&& *final(cursor) == *old(cursor)
            },
        },
{
    let start: usize = *cursor;
    if start > body.len() || body.len() - start < 4 {
        return Err(bad_request("publish body too short"));
    }
    let number: u32 = body[start] as u32 + 0x100 * body[start + 1] as u32 + 0x10000 * body[start + 2]
        as u32 + 0x1000000 * body[start + 3] as u32;
    *cursor = start + 4;
    Ok(number)
}

/// Takes a publish request apart.
pub fn frame_publish_body<'a>(body: &'a [u8], max_tarball_bytes: usize) -> (result: Result<
    PublishFrame<'a>,
    AppError,
>)
    requires
        max_tarball_bytes + METADATA_ALLOWANCE <= usize::MAX,
    ensures
        match result {
            Ok(frame) => {
                &&& frame_fault(body@, max_tarball_bytes) is None
                &&& frame.metadata@ == metadata_of(body@)
                &&& frame.tarball@ == tarball_of(body@)
                &&& frame.tarball@.len() <= u32::MAX
            },
            Err(error) => frame_fault(body@, max_tarball_bytes) == Some(error@),
        },
{
    if body.len() > max_tarball_bytes + METADATA_ALLOWANCE {
        return Err(bad_request("publish payload too large"));
    }
    let mut cursor: usize = 0;
    let metadata_len: usize = read_u32_le(body, &mut cursor)? as usize;
    let end: usize = match cursor.checked_add(metadata_len) {
        Some(end) => end,
        None => return Err(bad_request("publish metadata too large")),
    };
    if end > body.len() {
        return Err(bad_request("publish metadata length mismatch"));
    }
    let metadata = slice_subrange(body, cursor, end);
    cursor = end;
    let tarball_len: usize = read_u32_le(body, &mut cursor)? as usize;
    let crate_end: usize = match cursor.checked_add(tarball_len) {
        Some(crate_end) => crate_end,
        None => return Err(bad_request("crate tarball too large")),
    };
    if crate_end > body.len() {
        return Err(bad_request("crate tarball length mismatch"));
    }
    let tarball = slice_subrange(body, cursor, crate_end);
    if crate_end != body.len() {
        return Err(bad_request("publish body contains trailing data"));
    }
    if tarball.len() > max_tarball_bytes {
        return Err(bad_request("crate tarball too large"));
    }
    Ok(PublishFrame { metadata, tarball })
}

/// What is wrong with the metadata of a publish request of which no more has
/// been looked at.
pub open spec fn metadata_fault(body: Seq<u8>) -> Option<Fault> {
    if body.len() < 4 {
        Some(Fault::BadRequest("publish body too short"@))
    } else if metadata_end(body) > body.len() {
        Some(Fault::BadRequest("publish metadata length mismatch"@))
    } else {
        None
    }
}

/// The metadata of a publish request.
pub fn publish_metadata_bytes<'a>(body: &'a [u8]) -> (result: Result<&'a [u8], AppError>)
    ensures
        match result {
            Ok(metadata) => metadata_fault(body@) is None && metadata@ == metadata_of(body@),
            Err(error) => metadata_fault(body@) == Some(error@),
        },
{
    let mut cursor: usize = 0;
    let metadata_len: usize = read_u32_le(body, &mut cursor)? as usize;
    if metadata_len > body.len() - 4 {
        return Err(bad_request("publish metadata length mismatch"));
    }
    Ok(slice_subrange(body, 4, 4 + metadata_len))
}

/// A publish request as a client puts it together.
pub open spec fn publish_body(metadata: Seq<u8>, tarball: Seq<u8>) -> Seq<u8> {
    le32_bytes(metadata.len()) + metadata + le32_bytes(tarball.len()) + tarball
}

/// Four bytes can write every number below two to the 32nd.
pub proof fn lemma_le32_round_trip(n: nat)
    requires
        n <= u32::MAX,
    ensures
        le32(le32_bytes(n)) == n,
{
    let low = n / 0x100;
    let mid = n / 0x10000;
    let high = n / 0x1000000;
    assert(mid == low / 0x100);
    assert(high == mid / 0x100);
    assert(high < 0x100);
}

/// Only the four bytes that write a number read as it.
pub proof fn lemma_le32_unique(bytes: Seq<u8>)
    requires
        bytes.len() == 4,
    ensures
        le32(bytes) <= u32::MAX,
        le32_bytes(le32(bytes)) == bytes,
{
    let n = le32(bytes);
    let low = bytes[1] + 0x100 * bytes[2] + 0x10000 * bytes[3];
    let mid = bytes[2] + 0x100 * bytes[3];
    assert(n == bytes[0] + 0x100 * low);
    assert(n / 0x100 == low);
    assert(low == bytes[1] + 0x100 * mid);
    assert(n / 0x10000 == mid);
    assert(n / 0x1000000 == bytes[3]);
    assert(le32_bytes(n) =~= bytes);
}

/// What a client puts into a publish request is what the registry takes out
/// of it.
pub proof fn law_frame_round_trip(metadata: Seq<u8>, tarball: Seq<u8>, max_tarball_bytes: usize)
    requires
        metadata.len() <= u32::MAX,
        tarball.len() <= u32::MAX,
        tarball.len() <= max_tarball_bytes,
        metadata.len() + tarball.len() + 8 <= max_tarball_bytes + METADATA_ALLOWANCE,
        metadata.len() + tarball.len() + 8 <= usize::MAX,
    ensures
        frame_fault(publish_body(metadata, tarball), max_tarball_bytes) is None,
        metadata_of(publish_body(metadata, tarball)) == metadata,
        tarball_of(publish_body(metadata, tarball)) == tarball,
{
    let body = publish_body(metadata, tarball);
    lemma_le32_round_trip(metadata.len());
    lemma_le32_round_trip(tarball.len());
    assert(body.subrange(0, 4) == le32_bytes(metadata.len()));
    assert(metadata_end(body) == 4 + metadata.len());
    assert(body.subrange(metadata_end(body), metadata_end(body) + 4) == le32_bytes(tarball.len()));
    assert(tarball_end(body) == body.len());
    assert(metadata_of(body) == metadata);
    assert(tarball_of(body) == tarball);
}

/// A publish request that is accepted holds its metadata and its tarball and
/// nothing else.
pub proof fn law_frame_exact(body: Seq<u8>, max_tarball_bytes: usize)
    requires
        frame_fault(body, max_tarball_bytes) is None,
    ensures
        body == publish_body(metadata_of(body), tarball_of(body)),
        tarball_of(body).len() <= max_tarball_bytes,
{
    let end = metadata_end(body);
    lemma_le32_unique(body.subrange(0, 4));
    lemma_le32_unique(body.subrange(end, end + 4));
    assert(body =~= body.subrange(0, 4) + metadata_of(body) + body.subrange(end, end + 4)
        + tarball_of(body));
}

} // verus!
