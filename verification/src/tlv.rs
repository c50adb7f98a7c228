//! The tagged-length-value scanner.
//!
//! Extensions live in the byte region that follows a base account's fixed
//! fields (plus, for a mint, a fixed padding) and the account-kind byte.
//! Each extension is prefixed by a header of a 16-bit type and a 16-bit
//! payload length, both little-endian.  The scanner walks the headers and
//! returns the payload of the requested kind.
//!
//! The scan never reads past the buffer: a truncated header, an
//! unrecognized type, or a length field that would overrun the buffer all
//! terminate the scan with "not present" — a normal outcome for optional
//! extensions, never a fault.  For a fixed-size extension the header's
//! length must equal the declared size or the entry does not match.

use vstd::prelude::*;

verus! {

use vstd::bytes::lemma_auto_spec_u16_to_from_le_bytes;
use vstd::bytes::spec_u16_from_le_bytes;
use vstd::bytes::spec_u16_to_le_bytes;
use vstd::bytes::u16_from_le_bytes;
use vstd::slice::slice_subrange;

use crate::registry::BaseState;
use crate::registry::ExtensionType;
use crate::registry::EXTENSIONS_PADDING;
use crate::registry::EXTENSION_START_OFFSET;
use crate::registry::MINT_BASE_LEN;
use crate::registry::TOKEN_ACCOUNT_BASE_LEN;
use crate::registry::lemma_ext_type_code_roundtrip;
use crate::registry::ext_type_code;
use crate::registry::spec_ext_type_from_code;

/// Where the extension region starts inside a base account's byte buffer:
/// after the fixed fields, the mint padding, and the account-kind byte.
pub open spec fn spec_tlv_region_start(base: BaseState) -> int {
    match base {
        BaseState::Mint => MINT_BASE_LEN + EXTENSIONS_PADDING + EXTENSION_START_OFFSET,
        BaseState::TokenAccount => TOKEN_ACCOUNT_BASE_LEN + EXTENSION_START_OFFSET,
    }
}

/// Where the extension region starts inside a base account's byte buffer.
pub fn tlv_region_start(base: BaseState) -> (s: usize)
    ensures
        s as int == spec_tlv_region_start(base),
{
    match base {
        BaseState::Mint => MINT_BASE_LEN + EXTENSIONS_PADDING + EXTENSION_START_OFFSET,
        BaseState::TokenAccount => TOKEN_ACCOUNT_BASE_LEN + EXTENSION_START_OFFSET,
    }
}

/// One step of the header walk, from byte offset `start` of the extension
/// region.  Yields the payload's offset and length within the region, or
/// nothing when the target is not present.  `expected` constrains the
/// header's length field for fixed-size extensions; `None` accepts any
/// length (variable-length extensions).
pub open spec fn scan_from(
    region: Seq<u8>,
    target: ExtensionType,
    expected: Option<int>,
    start: int,
) -> Option<(int, int)>
    decreases region.len() - start,
{
    if start + 4 > region.len() {
        None
    } else {
        let code = spec_u16_from_le_bytes(region.subrange(start, start + 2));
        let len = spec_u16_from_le_bytes(region.subrange(start + 2, start + 4)) as int;
        if spec_ext_type_from_code(code) is None {
            None
        } else if spec_ext_type_from_code(code) == Some(target) && (expected is None || expected
            == Some(len)) {
            if start + 4 + len <= region.len() {
                Some((start + 4, len))
            } else {
                None
            }
        } else {
            if start + 4 + len >= region.len() {
                None
            } else {
                scan_from(region, target, expected, start + 4 + len)
            }
        }
    }
}

/// The length constraint an optional expected length imposes.
pub open spec fn opt_len_view(o: Option<usize>) -> Option<int> {
    match o {
        Some(l) => Some(l as int),
        None => None,
    }
}

/// Absolute offset and length, within a base account's full byte buffer, of
/// the payload of extension `target`, or nothing when it is not present.
/// A buffer too short to hold the fixed fields has no extensions.
pub open spec fn locate_extension(
    data: Seq<u8>,
    base: BaseState,
    target: ExtensionType,
    expected: Option<int>,
) -> Option<(int, int)> {
    let s = spec_tlv_region_start(base);
    if data.len() < s {
        None
    } else {
        match scan_from(data.skip(s), target, expected, 0) {
            Some(p) => Some((p.0 + s, p.1)),
            None => None,
        }
    }
}

/// Walk the extension headers of `data` for `target`, returning the
/// payload's absolute offset and length.  `expected` demands an exact
/// header length (fixed-size extension); `None` accepts any length.
pub fn find_extension(
    data: &[u8],
    base: BaseState,
    target: ExtensionType,
    expected: Option<usize>,
) -> (r: Option<(usize, usize)>)
    ensures
        ({
            let loc = locate_extension(data@, base, target, opt_len_view(expected));
            match r {
                Some(p) => loc == Some((p.0 as int, p.1 as int)) && p.0 + p.1 <= data@.len() && (
                expected matches Some(e) ==> p.1 == e),
                None => loc is None,
            }
        }),
{
    let sstart = tlv_region_start(base);
    let dlen = data.len();
    if dlen < sstart {
        return None;
    }
    let region = slice_subrange(data, sstart, dlen);
    proof {
        assert(region@ =~= data@.skip(sstart as int));
    }
    let end = region.len();
    let mut start: usize = 0;
    while start < end
        invariant
            region@ == data@.skip(sstart as int),
            end == region@.len(),
            dlen == data@.len(),
            sstart + end == dlen,
            sstart as int == spec_tlv_region_start(base),
            data@.len() >= sstart,
            scan_from(region@, target, opt_len_view(expected), start as int) == scan_from(
                region@,
                target,
                opt_len_view(expected),
                0,
            ),
        decreases end - start,
    {
        if end - start < 4 {
            return None;
        }
        let code_u = u16_from_le_bytes(slice_subrange(region, start, start + 2));
        let len_u = u16_from_le_bytes(slice_subrange(region, start + 2, start + 4)) as usize;
        let ty = match ExtensionType::from_code(code_u) {
            Some(t) => t,
            None => {
                return None;
            },
        };
        let len_ok = match expected {
            Some(e) => len_u == e,
            None => true,
        };
        if ty == target && len_ok {
            if len_u <= end - start - 4 {
                return Some((sstart + start + 4, len_u));
            } else {
                return None;
            }
        } else {
            if len_u >= end - start - 4 {
                return None;
            }
            let next = start + 4 + len_u;
            proof {
                assert(scan_from(region@, target, opt_len_view(expected), next as int)
                    == scan_from(region@, target, opt_len_view(expected), start as int));
            }
            start = next;
        }
    }
    None
}

/// The payload of fixed-size extension `target` inside a base account's
/// byte buffer, present only when a header of that type carries exactly the
/// declared length and the payload lies within the buffer.
pub fn get_extension_from_bytes(
    acc_data: &[u8],
    base: BaseState,
    target: ExtensionType,
    expected_len: usize,
) -> (r: Option<&[u8]>)
    ensures
        r is Some <==> locate_extension(acc_data@, base, target, Some(expected_len as int))
            is Some,
        r matches Some(payload) ==> (locate_extension(
            acc_data@,
            base,
            target,
            Some(expected_len as int),
        ) matches Some(p) && payload@ == acc_data@.subrange(p.0, p.0 + p.1) && payload@.len()
            == expected_len),
{
    let dlen = acc_data.len();
    match find_extension(acc_data, base, target, Some(expected_len)) {
        Some(p) => {
            proof {
                assert(p.0 + p.1 <= dlen);
            }
            Some(slice_subrange(acc_data, p.0, p.0 + p.1))
        },
        None => None,
    }
}

/// The raw payload of variable-length extension `target` inside a base
/// account's byte buffer, whatever length its header declares, provided the
/// payload lies within the buffer.
pub fn get_extension_data_bytes_for_variable_pack(
    acc_data: &[u8],
    base: BaseState,
    target: ExtensionType,
) -> (r: Option<&[u8]>)
    ensures
        r is Some <==> locate_extension(acc_data@, base, target, None) is Some,
        r matches Some(payload) ==> (locate_extension(acc_data@, base, target, None)
            matches Some(p) && payload@ == acc_data@.subrange(p.0, p.0 + p.1)),
{
    let dlen = acc_data.len();
    match find_extension(acc_data, base, target, None) {
        Some(p) => {
            proof {
                assert(p.0 + p.1 <= dlen);
            }
            Some(slice_subrange(acc_data, p.0, p.0 + p.1))
        },
        None => None,
    }
}

/// The wire form of one extension entry: its header followed by its
/// payload.
pub open spec fn entry_bytes(t: ExtensionType, payload: Seq<u8>) -> Seq<u8> {
    spec_u16_to_le_bytes(ext_type_code(t)) + spec_u16_to_le_bytes(payload.len() as u16) + payload
}

/// The wire form of a whole extension region: the entries' wire forms, in
/// order.
pub open spec fn region_bytes(entries: Seq<(ExtensionType, Seq<u8>)>) -> Seq<u8>
    decreases entries.len(),
{
    if entries.len() == 0 {
        Seq::<u8>::empty()
    } else {
        entry_bytes(entries[0].0, entries[0].1) + region_bytes(entries.skip(1))
    }
}

/// Every payload's length fits the header's 16-bit length field.
pub open spec fn wf_entries(entries: Seq<(ExtensionType, Seq<u8>)>) -> bool {
    forall|j: int| 0 <= j < entries.len() ==> (#[trigger] entries[j]).1.len() <= 0xffff
}

/// The header of one well-formed entry reads back as written, and its wire
/// form is at least the four header bytes long.
proof fn lemma_entry_bytes_header(t: ExtensionType, payload: Seq<u8>)
    requires
        payload.len() <= 0xffff,
    ensures
        entry_bytes(t, payload).len() == 4 + payload.len(),
        spec_u16_from_le_bytes(entry_bytes(t, payload).subrange(0, 2)) == ext_type_code(t),
        spec_u16_from_le_bytes(entry_bytes(t, payload).subrange(2, 4)) as int == payload.len(),
        entry_bytes(t, payload).subrange(4, 4 + payload.len() as int) == payload,
{
    lemma_auto_spec_u16_to_from_le_bytes();
    let eb = entry_bytes(t, payload);
    assert(eb.subrange(0, 2) =~= spec_u16_to_le_bytes(ext_type_code(t)));
    assert(eb.subrange(2, 4) =~= spec_u16_to_le_bytes(payload.len() as u16));
    assert(eb.subrange(4, 4 + payload.len() as int) =~= payload);
}

/// A found payload lies after its header and within the region.
proof fn lemma_scan_from_bounds(
    region: Seq<u8>,
    target: ExtensionType,
    expected: Option<int>,
    start: int,
    o: int,
    l: int,
)
    requires
        0 <= start,
        scan_from(region, target, expected, start) == Some((o, l)),
    ensures
        start + 4 <= o,
        0 <= l,
        o + l <= region.len(),
    decreases region.len() - start,
{
    if start + 4 > region.len() {
    } else {
        let code = spec_u16_from_le_bytes(region.subrange(start, start + 2));
        let len = spec_u16_from_le_bytes(region.subrange(start + 2, start + 4)) as int;
        if spec_ext_type_from_code(code) is None {
        } else if spec_ext_type_from_code(code) == Some(target) && (expected is None || expected
            == Some(len)) {
        } else {
            if start + 4 + len >= region.len() {
            } else {
                lemma_scan_from_bounds(region, target, expected, start + 4 + len, o, l);
            }
        }
    }
}

/// Scanning past an uninvolved prefix is scanning the remainder: offsets
/// shift by the prefix's length and nothing else changes.
proof fn lemma_scan_from_shift(
    prefix: Seq<u8>,
    rest: Seq<u8>,
    target: ExtensionType,
    expected: Option<int>,
    k: int,
)
    requires
        0 <= k,
    ensures
        scan_from(prefix + rest, target, expected, prefix.len() + k) == match scan_from(
            rest,
            target,
            expected,
            k,
        ) {
            Some(p) => Some((p.0 + prefix.len(), p.1)),
            None => None::<(int, int)>,
        },
    decreases rest.len() - k,
{
    let region = prefix + rest;
    let p = prefix.len() as int;
    if k + 4 > rest.len() {
    } else {
        assert(region.subrange(p + k, p + k + 2) =~= rest.subrange(k, k + 2));
        assert(region.subrange(p + k + 2, p + k + 4) =~= rest.subrange(k + 2, k + 4));
        let code = spec_u16_from_le_bytes(rest.subrange(k, k + 2));
        let len = spec_u16_from_le_bytes(rest.subrange(k + 2, k + 4)) as int;
        if spec_ext_type_from_code(code) is None {
        } else if spec_ext_type_from_code(code) == Some(target) && (expected is None || expected
            == Some(len)) {
        } else {
            if k + 4 + len >= rest.len() {
            } else {
                lemma_scan_from_shift(prefix, rest, target, expected, k + 4 + len);
            }
        }
    }
}

/// Splitting a region at its first entry.
proof fn lemma_region_bytes_first(entries: Seq<(ExtensionType, Seq<u8>)>)
    requires
        entries.len() > 0,
    ensures
        region_bytes(entries) == entry_bytes(entries[0].0, entries[0].1) + region_bytes(
            entries.skip(1),
        ),
{
}

/// Whether one entry satisfies the scan's match test: it carries the target
/// type, and its payload length is the expected one where a fixed size is
/// demanded.
pub open spec fn entry_matches(
    e: (ExtensionType, Seq<u8>),
    target: ExtensionType,
    expected: Option<int>,
) -> bool {
    e.0 == target && (expected is None || expected == Some(e.1.len() as int))
}

/// The scan returns the first matching entry's payload: in a region laid
/// out as well-formed entries, if entry `i` matches and no earlier entry
/// does, the scan stops there — later entries, matching or not, and the
/// non-matching entries before it cannot change the result.
pub proof fn lemma_scan_finds_first_match(
    entries: Seq<(ExtensionType, Seq<u8>)>,
    target: ExtensionType,
    expected: Option<int>,
    i: int,
)
    requires
        wf_entries(entries),
        0 <= i < entries.len(),
        entry_matches(entries[i], target, expected),
        forall|j: int| 0 <= j < i ==> !entry_matches(#[trigger] entries[j], target, expected),
    ensures
        scan_from(region_bytes(entries), target, expected, 0) == Some(
            (region_bytes(entries.take(i)).len() as int + 4, entries[i].1.len() as int),
        ),
        region_bytes(entries).subrange(
            region_bytes(entries.take(i)).len() as int + 4,
            region_bytes(entries.take(i)).len() as int + 4 + entries[i].1.len() as int,
        ) == entries[i].1,
    decreases i,
{
    lemma_auto_spec_u16_to_from_le_bytes();
    let region = region_bytes(entries);
    let e0 = entries[0];
    let eb0 = entry_bytes(e0.0, e0.1);
    let rest = entries.skip(1);
    lemma_region_bytes_first(entries);
    lemma_entry_bytes_header(e0.0, e0.1);
    lemma_ext_type_code_roundtrip(e0.0);
    assert(region.subrange(0, 2) =~= eb0.subrange(0, 2));
    assert(region.subrange(2, 4) =~= eb0.subrange(2, 4));
    let len0 = e0.1.len() as int;
    if i == 0 {
        assert(entries.take(0) =~= Seq::<(ExtensionType, Seq<u8>)>::empty());
        assert(region_bytes(entries.take(0)).len() == 0);
        assert(region.subrange(4, 4 + len0) =~= eb0.subrange(4, 4 + len0));
    } else {
        assert(!entry_matches(entries[0], target, expected));
        assert(spec_ext_type_from_code(spec_u16_from_le_bytes(region.subrange(0, 2))) == Some(
            e0.0,
        ));
        let next = 4 + len0;
        assert(next == eb0.len());
        assert(wf_entries(rest)) by {
            assert(forall|j: int|
                0 <= j < rest.len() ==> (#[trigger] rest[j]).1.len() <= 0xffff) by {
                assert(forall|j: int| 0 <= j < rest.len() ==> rest[j] == entries[j + 1]);
            }
        }
        assert(rest[i - 1] == entries[i]);
        assert(forall|j: int| 0 <= j < i - 1 ==> !entry_matches(
            #[trigger] rest[j],
            target,
            expected,
        )) by {
            assert(forall|j: int| 0 <= j < rest.len() ==> rest[j] == entries[j + 1]);
        }
        lemma_scan_finds_first_match(rest, target, expected, i - 1);
        lemma_entry_bytes_header(entries[i].0, entries[i].1);
        assert(region_bytes(rest).len() > 0) by {
            lemma_region_bytes_first(rest);
            lemma_entry_bytes_header(rest[0].0, rest[0].1);
        }
        lemma_scan_from_shift(eb0, region_bytes(rest), target, expected, 0);
        let offr = region_bytes(rest.take(i - 1)).len() as int;
        let leni = entries[i].1.len() as int;
        lemma_scan_from_bounds(region_bytes(rest), target, expected, 0, offr + 4, leni);
        assert(entries.take(i).skip(1) =~= rest.take(i - 1));
        assert(entries.take(i)[0] == entries[0]);
        lemma_region_bytes_first(entries.take(i));
        assert(region_bytes(entries.take(i)).len() == eb0.len() + offr);
        assert(region.subrange(eb0.len() + offr + 4, eb0.len() + offr + 4 + leni)
            =~= region_bytes(rest).subrange(offr + 4, offr + 4 + leni));
        assert(scan_from(region, target, expected, 0) == scan_from(region, target, expected, next));
    }
}

/// Scan invariance: in a region laid out as well-formed entries of which
/// exactly one carries the target type, the scan returns that entry's
/// payload — wherever it stands and whatever the other entries hold.  The
/// payload found is the entry's own, so reordering, adding or removing the
/// other entries cannot change it.
pub proof fn lemma_scan_finds_unique(
    entries: Seq<(ExtensionType, Seq<u8>)>,
    target: ExtensionType,
    expected: Option<int>,
    i: int,
)
    requires
        wf_entries(entries),
        0 <= i < entries.len(),
        entries[i].0 == target,
        forall|j: int| 0 <= j < entries.len() && j != i ==> (#[trigger] entries[j]).0 != target,
        expected is None || expected == Some(entries[i].1.len() as int),
    ensures
        scan_from(region_bytes(entries), target, expected, 0) == Some(
            (region_bytes(entries.take(i)).len() as int + 4, entries[i].1.len() as int),
        ),
        region_bytes(entries).subrange(
            region_bytes(entries.take(i)).len() as int + 4,
            region_bytes(entries.take(i)).len() as int + 4 + entries[i].1.len() as int,
        ) == entries[i].1,
{
    assert(forall|j: int| 0 <= j < i ==> !entry_matches(#[trigger] entries[j], target, expected));
    lemma_scan_finds_first_match(entries, target, expected, i);
}

/// Scan invariance for a whole account buffer: when the bytes after the
/// fixed fields lay out well-formed entries of which exactly one carries
/// the target type, locating that type yields that entry's payload — at its
/// own offset, independent of what the other entries hold.
pub proof fn lemma_locate_extension_unique(
    pad: Seq<u8>,
    entries: Seq<(ExtensionType, Seq<u8>)>,
    base: BaseState,
    target: ExtensionType,
    expected: Option<int>,
    i: int,
)
    requires
        pad.len() == spec_tlv_region_start(base),
        wf_entries(entries),
        0 <= i < entries.len(),
        entries[i].0 == target,
        forall|j: int| 0 <= j < entries.len() && j != i ==> (#[trigger] entries[j]).0 != target,
        expected is None || expected == Some(entries[i].1.len() as int),
    ensures
        ({
            let data = pad + region_bytes(entries);
            let off = pad.len() as int + region_bytes(entries.take(i)).len() as int + 4;
            locate_extension(data, base, target, expected) == Some(
                (off, entries[i].1.len() as int),
            ) && data.subrange(off, off + entries[i].1.len() as int) == entries[i].1
        }),
{
    lemma_scan_finds_unique(entries, target, expected, i);
    let data = pad + region_bytes(entries);
    let region = region_bytes(entries);
    let offr = region_bytes(entries.take(i)).len() as int;
    let leni = entries[i].1.len() as int;
    assert(data.skip(pad.len() as int) =~= region);
    lemma_scan_from_bounds(region, target, expected, 0, offr + 4, leni);
    assert(data.subrange(pad.len() + offr + 4, pad.len() + offr + 4 + leni) =~= region.subrange(
        offr + 4,
        offr + 4 + leni,
    ));
}

/// Scan safety at a malformed tail: after any well-formed entries that do
/// not carry the target type, a trailing header that is truncated or whose
/// length field would overrun the buffer terminates the scan with "not
/// present" — the scan never runs past the buffer.
pub proof fn lemma_scan_overrun_tail(
    entries: Seq<(ExtensionType, Seq<u8>)>,
    tail: Seq<u8>,
    target: ExtensionType,
    expected: Option<int>,
)
    requires
        wf_entries(entries),
        forall|j: int| 0 <= j < entries.len() ==> (#[trigger] entries[j]).0 != target,
        tail.len() == 0 || tail.len() < 4 || 4 + spec_u16_from_le_bytes(
            tail.subrange(2, 4),
        ) as int > tail.len(),
    ensures
        scan_from(region_bytes(entries) + tail, target, expected, 0) is None,
    decreases entries.len(),
{
    lemma_auto_spec_u16_to_from_le_bytes();
    let region = region_bytes(entries) + tail;
    if entries.len() == 0 {
        assert(region =~= tail);
        if tail.len() < 4 {
        } else {
            let len = spec_u16_from_le_bytes(tail.subrange(2, 4)) as int;
            assert(region.subrange(0, 2) =~= tail.subrange(0, 2));
            assert(region.subrange(2, 4) =~= tail.subrange(2, 4));
            assert(4 + len > tail.len());
        }
    } else {
        let e0 = entries[0];
        let eb0 = entry_bytes(e0.0, e0.1);
        let rest = entries.skip(1);
        lemma_region_bytes_first(entries);
        lemma_entry_bytes_header(e0.0, e0.1);
        lemma_ext_type_code_roundtrip(e0.0);
        assert(region =~= eb0 + (region_bytes(rest) + tail));
        assert(region.subrange(0, 2) =~= eb0.subrange(0, 2));
        assert(region.subrange(2, 4) =~= eb0.subrange(2, 4));
        let len0 = e0.1.len() as int;
        let next = 4 + len0;
        assert(next == eb0.len());
        assert(wf_entries(rest)) by {
            assert(forall|j: int| 0 <= j < rest.len() ==> rest[j] == entries[j + 1]);
        }
        assert(forall|j: int| 0 <= j < rest.len() ==> (#[trigger] rest[j]).0 != target) by {
            assert(forall|j: int| 0 <= j < rest.len() ==> rest[j] == entries[j + 1]);
        }
        lemma_scan_overrun_tail(rest, tail, target, expected);
        if next >= region.len() {
        } else {
            lemma_scan_from_shift(eb0, region_bytes(rest) + tail, target, expected, 0);
            assert(scan_from(region, target, expected, 0) == scan_from(
                region,
                target,
                expected,
                next,
            ));
        }
    }
}

} // verus!
