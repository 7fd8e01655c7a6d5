//! Identification of compatible devices from advertisement data.
//!
//! A discoverable device broadcasts a vendor-specific data block under a
//! fixed vendor key. The block's first two bytes, read little-endian, must
//! equal a fixed sub-identifier for the device family to be accepted; the
//! third byte is a protocol-version marker (currently unvalidated) and the
//! two bytes after it are a textual model code. Non-matching devices are
//! silently excluded; a block too short to read those fields, or one whose
//! model code is not valid text, is a malformed advertisement and is
//! surfaced as an explicit decode error rather than swallowed.

use vstd::prelude::*;

use crate::bytes::read_u16_le;
use crate::bytes::spec_le16;

verus! {

/// The manufacturer-data key under which the vendor block is broadcast.
pub const VENDOR_ID: u16 = 0x012d;

/// The little-endian sub-identifier the first two block bytes must equal.
pub const EXPECTED_SUB_ID: u16 = 0x0003;

/// The least block length that holds sub-identifier, version marker and
/// model code.
pub const MIN_BLOCK_LEN: usize = 5;

/// Two bytes that form valid UTF-8 on their own: two ASCII bytes, or one
/// well-formed two-byte sequence.
pub open spec fn spec_valid_utf8_pair(a: u8, b: u8) -> bool {
    (a < 0x80 && b < 0x80) || (0xc2 <= a && a <= 0xdf && 0x80 <= b && b <= 0xbf)
}

/// Errors while decoding a vendor advertisement block.
#[derive(Clone, Copy, PartialEq, Eq, Structural, Debug)]
pub enum AdvertisementError {
    /// The block is too short to read the expected fields.
    TooShort,
    /// The model-code bytes are not valid text.
    BadModelCode,
}

/// A successfully identified device.
#[derive(Clone, Copy, PartialEq, Eq, Structural, Debug)]
pub struct DeviceMatch {
    /// The protocol-version marker, currently accepted unvalidated.
    pub protocol_version: u8,
    /// The first model-code byte.
    pub model_code_0: u8,
    /// The second model-code byte.
    pub model_code_1: u8,
}

/// The vendor block is present but cannot be decoded.
pub open spec fn spec_block_malformed(b: Seq<u8>) -> bool {
    b.len() < MIN_BLOCK_LEN || !spec_valid_utf8_pair(b[3], b[4])
}

/// The vendor block decodes and names the expected device family.
pub open spec fn spec_block_matches(b: Seq<u8>) -> bool {
    !spec_block_malformed(b) && spec_le16(b[0], b[1]) == EXPECTED_SUB_ID
}

/// Decodes one vendor block: `Ok(Some(..))` for a device of the expected
/// family, `Ok(None)` for a well-formed block of some other device, and an
/// error for a malformed block.
pub fn classify_advertisement(data: &Vec<u8>) -> (r: Result<
    Option<DeviceMatch>,
    AdvertisementError,
>)
    ensures
        r is Err <==> spec_block_malformed(data@),
        data@.len() < MIN_BLOCK_LEN ==> r == Err::<Option<DeviceMatch>, AdvertisementError>(
            AdvertisementError::TooShort,
        ),
        data@.len() >= MIN_BLOCK_LEN && !spec_valid_utf8_pair(data@[3], data@[4]) ==> r == Err::<
            Option<DeviceMatch>,
            AdvertisementError,
        >(AdvertisementError::BadModelCode),
        (r is Ok && r->Ok_0 is Some) <==> spec_block_matches(data@),
        spec_block_matches(data@) ==> r == Ok::<Option<DeviceMatch>, AdvertisementError>(
            Some(
                DeviceMatch {
                    protocol_version: data@[2],
                    model_code_0: data@[3],
                    model_code_1: data@[4],
                },
            ),
        ),
        (!spec_block_malformed(data@) && !spec_block_matches(data@)) ==> r == Ok::<
            Option<DeviceMatch>,
            AdvertisementError,
        >(None),
{
    if data.len() < MIN_BLOCK_LEN {
        return Err(AdvertisementError::TooShort);
    }
    let m0 = data[3];
    let m1 = data[4];
    let ascii_pair = m0 < 0x80 && m1 < 0x80;
    let two_byte_seq = 0xc2 <= m0 && m0 <= 0xdf && 0x80 <= m1 && m1 <= 0xbf;
    if !(ascii_pair || two_byte_seq) {
        return Err(AdvertisementError::BadModelCode);
    }
    let sub_id = read_u16_le(data[0], data[1]);
    if sub_id != EXPECTED_SUB_ID {
        return Ok(None);
    }
    Ok(Some(DeviceMatch { protocol_version: data[2], model_code_0: m0, model_code_1: m1 }))
}

/// The entry of one visible device: its vendor block, where the
/// advertisement carried one under the vendor key.
pub open spec fn spec_entry_malformed(b: Option<Vec<u8>>) -> bool {
    b is Some && spec_block_malformed(b->Some_0@)
}

/// The entry names a device of the expected family.
pub open spec fn spec_entry_matches(b: Option<Vec<u8>>) -> bool {
    b is Some && spec_block_matches(b->Some_0@)
}

/// The indices of the matching entries, in their original order.
pub open spec fn spec_matching_indices(s: Seq<Option<Vec<u8>>>) -> Seq<usize>
    decreases s.len(),
{
    if s.len() == 0 {
        Seq::empty()
    } else {
        spec_matching_indices(s.drop_last()) + if spec_entry_matches(s.last()) {
            seq![(s.len() - 1) as usize]
        } else {
            Seq::empty()
        }
    }
}

/// Law: the selection is exact — every index it yields points at an entry
/// of the expected device family; the index of every such entry is yielded;
/// and the indices come out strictly increasing, so the original order is
/// kept and nothing is duplicated. Every other device is excluded.
pub proof fn lemma_matching_indices_exact(s: Seq<Option<Vec<u8>>>)
    requires
        s.len() <= usize::MAX,
    ensures
        forall|k: int|
            0 <= k < spec_matching_indices(s).len() ==> #[trigger] spec_matching_indices(s)[k]
                < s.len() && spec_entry_matches(s[spec_matching_indices(s)[k] as int]),
        forall|i: int|
            0 <= i < s.len() && spec_entry_matches(s[i]) ==> spec_matching_indices(s).contains(
                i as usize,
            ),
        forall|k1: int, k2: int|
            0 <= k1 < k2 < spec_matching_indices(s).len() ==> spec_matching_indices(s)[k1]
                < spec_matching_indices(s)[k2],
    decreases s.len(),
{
    if s.len() > 0 {
        let prefix = s.drop_last();
        let m_pre = spec_matching_indices(prefix);
        let m = spec_matching_indices(s);
        lemma_matching_indices_exact(prefix);
        assert forall|k: int|
            0 <= k < m.len() implies #[trigger] m[k] < s.len() && spec_entry_matches(
            s[m[k] as int],
        ) by {
            if k < m_pre.len() {
                assert(m[k] == m_pre[k]);
                assert(prefix[m_pre[k] as int] == s[m_pre[k] as int]);
            } else {
                assert(spec_entry_matches(s.last()));
            }
        }
        assert forall|i: int|
            0 <= i < s.len() && spec_entry_matches(s[i]) implies m.contains(i as usize) by {
            if i < s.len() - 1 {
                assert(prefix[i] == s[i]);
                assert(m_pre.contains(i as usize));
                let k = choose|k: int| 0 <= k < m_pre.len() && m_pre[k] == i as usize;
                assert(m[k] == i as usize);
            } else {
                assert(m[m_pre.len() as int] == i as usize);
            }
        }
        assert forall|k1: int, k2: int| 0 <= k1 < k2 < m.len() implies m[k1] < m[k2] by {
            if k2 < m_pre.len() {
                assert(m[k1] == m_pre[k1] && m[k2] == m_pre[k2]);
            } else {
                assert(m[k1] == m_pre[k1]);
                assert((m_pre[k1] as int) < prefix.len());
            }
        }
    }
}

/// Law: a device that carries no vendor block, or a well-formed block
/// naming another sub-identifier, is silently excluded: the selection never
/// yields its index, and the entry itself never makes the scan fail — if
/// every other entry is well-formed, the whole scan is error-free. A
/// malformed block stands outside this law: the protocol surfaces it as a
/// decode error whatever its sub-identifier says.
pub proof fn lemma_non_matching_excluded(s: Seq<Option<Vec<u8>>>, i: int)
    requires
        s.len() <= usize::MAX,
        0 <= i < s.len(),
        !spec_entry_matches(s[i]),
        !spec_entry_malformed(s[i]),
    ensures
        !spec_matching_indices(s).contains(i as usize),
        (forall|j: int| 0 <= j < s.len() && j != i ==> !spec_entry_malformed(s[j])) ==> (forall|
            j: int,
        |
            0 <= j < s.len() ==> !spec_entry_malformed(s[j])),
{
    lemma_matching_indices_exact(s);
    if spec_matching_indices(s).contains(i as usize) {
        let k = choose|k: int|
            0 <= k < spec_matching_indices(s).len() && spec_matching_indices(s)[k] == i as usize;
        assert(spec_entry_matches(s[spec_matching_indices(s)[k] as int]));
    }
}

/// Filters the visible devices: given the vendor block of each (or `None`
/// where the advertisement carried none), returns the indices of the
/// devices of the expected family, in order. Devices without a block, and
/// well-formed blocks of other families, are silently excluded; the first
/// malformed block aborts the scan with its decode error.
pub fn select_matching(blocks: &Vec<Option<Vec<u8>>>) -> (r: Result<Vec<usize>, AdvertisementError>)
    ensures
        r is Ok <==> (forall|i: int|
            0 <= i < blocks@.len() ==> !spec_entry_malformed(blocks@[i])),
        r is Ok ==> r->Ok_0@ == spec_matching_indices(blocks@),
        r is Err ==> exists|i: int|
            0 <= i < blocks@.len() && spec_entry_malformed(blocks@[i]) && (forall|j: int|
                0 <= j < i ==> !spec_entry_malformed(blocks@[j])) && r->Err_0 == (
            if blocks@[i]->Some_0@.len() < MIN_BLOCK_LEN {
                AdvertisementError::TooShort
            } else {
                AdvertisementError::BadModelCode
            }),
{
    let mut out: Vec<usize> = Vec::new();
    let n = blocks.len();
    let mut i: usize = 0;
    while i < n
        invariant
            i <= n,
            n == blocks@.len(),
            out@ == spec_matching_indices(blocks@.subrange(0, i as int)),
            forall|j: int| 0 <= j < i ==> !spec_entry_malformed(blocks@[j]),
        decreases n - i,
    {
        match &blocks[i] {
            Some(data) => {
                match classify_advertisement(data) {
                    Ok(Some(_found)) => {
                        out.push(i);
                    },
                    Ok(None) => {
                    },
                    Err(e) => {
                        return Err(e);
                    },
                }
            },
            None => {
            },
        }
        i = i + 1;
        proof {
            let scanned = blocks@.subrange(0, i as int);
            assert(scanned.drop_last() =~= blocks@.subrange(0, i - 1));
            assert(out@ =~= spec_matching_indices(scanned));
        }
    }
    proof {
        assert(blocks@.subrange(0, n as int) =~= blocks@);
    }
    Ok(out)
}

} // verus!
