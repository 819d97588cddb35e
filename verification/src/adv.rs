//! The advertising data of the peripheral half, and how the central half
//! recognises it.
//!
//! Advertising data is a list of AD structures, each a length byte, a type
//! byte and `length - 1` data bytes. The central half scans for the
//! structure "complete local name" carrying the peripheral's name. The walk
//! stops at a zero length (padding) or at a structure that runs past the end.

use vstd::prelude::*;
use trouble_host::prelude::AdStructure;

verus! {

/// AD type of the complete local name.
pub const AD_TYPE_COMPLETE_LOCAL_NAME: u8 = 0x09;

/// The name the peripheral half advertises, "SimplePeri".
pub fn peripheral_name() -> (r: [u8; 10])
    ensures
        r@ == peripheral_name_spec(),
{
    [0x53, 0x69, 0x6d, 0x70, 0x6c, 0x65, 0x50, 0x65, 0x72, 0x69]
}

/// The bytes of "SimplePeri".
pub open spec fn peripheral_name_spec() -> Seq<u8> {
    seq![0x53u8, 0x69, 0x6d, 0x70, 0x6c, 0x65, 0x50, 0x65, 0x72, 0x69]
}

/// Whether the AD structures at the start of `data` include a complete local
/// name equal to `name`.
pub open spec fn adv_has_name(data: Seq<u8>, name: Seq<u8>) -> bool
    decreases data.len(),
{
    if data.len() <= 1 {
        false
    } else {
        let len = data[0] as int;
        if len == 0 || len + 1 > data.len() {
            false
        } else {
            (data[1] == AD_TYPE_COMPLETE_LOCAL_NAME && data.subrange(2, len + 1) == name)
                || adv_has_name(data.subrange(len + 1, data.len() as int), name)
        }
    }
}

/// Whether `data[start..end]` equals `name`.
fn bytes_equal_at(data: &[u8], start: usize, end: usize, name: &[u8]) -> (r: bool)
    requires
        start <= end <= data@.len(),
    ensures
        r == (data@.subrange(start as int, end as int) == name@),
{
    if end - start != name.len() {
        return false;
    }
    let n = name.len();
    for i in 0..n
        invariant
            n == name@.len(),
            end - start == n,
            start <= end <= data@.len(),
            forall|j: int| 0 <= j < i ==> data@[start + j] == name@[j],
    {
        if data[start + i] != name[i] {
            assert(data@.subrange(start as int, end as int)[i as int] != name@[i as int]);
            return false;
        }
    }
    assert(data@.subrange(start as int, end as int) =~= name@);
    true
}

/// Whether the advertising data carries a complete local name equal to
/// `name`.
pub fn adv_has_complete_local_name(data: &[u8], name: &[u8]) -> (found: bool)
    ensures
        found == adv_has_name(data@, name@),
{
    let n = data.len();
    let mut off: usize = 0;
    let mut found = false;
    assert(data@.subrange(0, n as int) =~= data@);
    loop
        invariant
            n == data@.len(),
            off <= n,
            adv_has_name(data@, name@) == (found || adv_has_name(data@.subrange(off as int, n as int), name@)),
        decreases n - off,
    {
        let ghost rest = data@.subrange(off as int, n as int);
        let remaining = n - off;
        if remaining <= 1 {
            return found;
        }
        let len = data[off] as usize;
        assert(rest[0] == data@[off as int]);
        if len == 0 || len + 1 > remaining {
            return found;
        }
        let typ = data[off + 1];
        assert(rest[1] == data@[off + 1]);
        assert(rest.subrange(2, len + 1) =~= data@.subrange(off + 2, off + 1 + len));
        assert(rest.subrange(len + 1, rest.len() as int) =~= data@.subrange(off + 1 + len, n as int));
        if typ == AD_TYPE_COMPLETE_LOCAL_NAME && bytes_equal_at(data, off + 2, off + 1 + len, name) {
            found = true;
        }
        off = off + 1 + len;
    }
}

/// Whether the advertising data names the peripheral half.
pub fn names_peripheral(data: &[u8]) -> (r: bool)
    ensures
        r == adv_has_name(data@, peripheral_name_spec()),
{
    let name = peripheral_name();
    adv_has_complete_local_name(data, &name)
}

/// The bytes of one AD structure of type `typ` carrying `value`.
pub open spec fn ad_structure(typ: u8, value: Seq<u8>) -> Seq<u8> {
    seq![(value.len() + 1) as u8, typ] + value
}

/// The bytes of a list of AD structures, one after the other.
pub open spec fn ad_list(ads: Seq<(u8, Seq<u8>)>) -> Seq<u8>
    decreases ads.len(),
{
    if ads.len() == 0 {
        seq![]
    } else {
        ad_structure(ads[0].0, ads[0].1) + ad_list(ads.drop_first())
    }
}

/// Whether one of the structures is a complete local name equal to `name`.
pub open spec fn lists_name(ads: Seq<(u8, Seq<u8>)>, name: Seq<u8>) -> bool {
    exists|i: int| 0 <= i < ads.len() && #[trigger] ads[i] == (AD_TYPE_COMPLETE_LOCAL_NAME, name)
}

/// The scan reads advertising data made of AD structures (each carrying at
/// most 254 bytes), followed by zero padding, as the list it is: it finds a
/// name exactly when one of the structures is a complete local name equal to
/// it.
pub proof fn lemma_scan_finds_listed_name(ads: Seq<(u8, Seq<u8>)>, name: Seq<u8>, pad: Seq<u8>)
    requires
        forall|i: int| 0 <= i < ads.len() ==> (#[trigger] ads[i]).1.len() <= 254,
        forall|j: int| 0 <= j < pad.len() ==> #[trigger] pad[j] == 0,
    ensures
        adv_has_name(ad_list(ads) + pad, name) == lists_name(ads, name),
    decreases ads.len(),
{
    let data = ad_list(ads) + pad;
    if ads.len() == 0 {
        assert(data =~= pad);
        if pad.len() > 1 {
            assert(pad[0] == 0);
        }
    } else {
        let a = ads[0];
        let tail = ads.drop_first();
        assert forall|i: int| 0 <= i < tail.len() implies (#[trigger] tail[i]).1.len() <= 254 by {
            assert(tail[i] == ads[i + 1]);
        }
        lemma_scan_finds_listed_name(tail, name, pad);
        let head = ad_structure(a.0, a.1);
        let rest = ad_list(tail) + pad;
        assert(data =~= head + rest);
        let len = data[0] as int;
        assert(len == a.1.len() + 1);
        assert(data[1] == a.0);
        assert(data.subrange(2, len + 1) =~= a.1);
        assert(data.subrange(len + 1, data.len() as int) =~= rest);
        if lists_name(ads, name) {
            let i = choose|i: int| 0 <= i < ads.len() && #[trigger] ads[i] == (AD_TYPE_COMPLETE_LOCAL_NAME, name);
            if i > 0 {
                assert(tail[i - 1] == ads[i]);
            }
        }
        if lists_name(tail, name) {
            let i = choose|i: int| 0 <= i < tail.len() && #[trigger] tail[i] == (AD_TYPE_COMPLETE_LOCAL_NAME, name);
            assert(ads[i + 1] == tail[i]);
        }
        if a == (AD_TYPE_COMPLETE_LOCAL_NAME, name) {
            assert(ads[0] == a);
        }
    }
}

/// AD type of the flags.
pub const AD_TYPE_FLAGS: u8 = 0x01;

/// AD type of a list of 16-bit service UUIDs (as the BLE host writes it).
pub const AD_TYPE_SERVICE_UUIDS_16: u8 = 0x02;

/// Advertising flags of the peripheral: LE general discoverable (bit 1) and
/// BR/EDR not supported (bit 2).
pub const PERIPHERAL_ADV_FLAGS: u8 = 0x06;

/// Size of a legacy advertising data block.
pub const ADV_DATA_LEN: usize = 31;

/// The bytes of a list of 16-bit UUIDs, each as given (little-endian).
pub open spec fn uuid16_bytes(uuids: Seq<[u8; 2]>) -> Seq<u8>
    decreases uuids.len(),
{
    if uuids.len() == 0 {
        seq![]
    } else {
        seq![uuids[0]@[0], uuids[0]@[1]] + uuid16_bytes(uuids.drop_first())
    }
}

/// The structures the peripheral advertises: its flags, its complete local
/// name and its 16-bit service UUIDs.
pub open spec fn peripheral_structures(flags: u8, name: Seq<u8>, uuids: Seq<[u8; 2]>) -> Seq<(u8, Seq<u8>)> {
    seq![
        (AD_TYPE_FLAGS, seq![flags]),
        (AD_TYPE_COMPLETE_LOCAL_NAME, name),
        (AD_TYPE_SERVICE_UUIDS_16, uuid16_bytes(uuids)),
    ]
}

/// The advertising structures did not fit in the buffer.
#[derive(Debug, Clone, Copy, PartialEq, Eq, Structural)]
pub struct AdvEncodeError;

/// The bytes of the peripheral's structures.
pub open spec fn adv_bytes(flags: u8, name: Seq<u8>, uuids: Seq<[u8; 2]>) -> Seq<u8> {
    ad_list(peripheral_structures(flags, name, uuids))
}

/// Encodes the flags, the complete local name and the 16-bit service UUID
/// list into `dest` with `trouble_host::advertise::AdStructure::encode_slice`.
///
/// As its source shows, each structure is written as a length byte (data
/// length + 1, as a byte), its type byte (0x01, 0x09, 0x02) and its data,
/// one after the other from the start of `dest`; the rest of `dest` is left
/// alone and the length written is returned. It fails when the structures do
/// not fit; what a failed call leaves in `dest` is not stated.
#[verifier::external_body]
fn encode_adv_structures(flags: u8, name: &[u8], uuids: &[[u8; 2]], dest: &mut [u8]) -> (r: Result<usize, AdvEncodeError>)
    ensures
        final(dest)@.len() == old(dest)@.len(),
        adv_bytes(flags, name@, uuids@).len() <= old(dest)@.len() ==> r is Ok && r->Ok_0 == adv_bytes(flags, name@, uuids@).len(),
        adv_bytes(flags, name@, uuids@).len() <= old(dest)@.len() ==> final(dest)@ == adv_bytes(flags, name@, uuids@) + old(dest)@.subrange(adv_bytes(flags, name@, uuids@).len() as int, old(dest)@.len() as int),
        adv_bytes(flags, name@, uuids@).len() > old(dest)@.len() ==> r is Err,
{
    AdStructure::encode_slice(
        &[AdStructure::Flags(flags), AdStructure::CompleteLocalName(name), AdStructure::ServiceUuids16(uuids)],
        dest,
    ).map_err(|_| AdvEncodeError)
}

/// The advertising data block of the peripheral half: its flags, its name
/// and its service UUID 0x1234, zero-padded to 31 bytes.
pub open spec fn peripheral_adv_data_spec() -> Seq<u8> {
    ad_list(peripheral_structures(PERIPHERAL_ADV_FLAGS, peripheral_name_spec(), seq![[0x34u8, 0x12u8]]))
        + Seq::new(12, |i: int| 0u8)
}

/// The advertising data block of the peripheral half.
pub fn peripheral_adv_data() -> (r: [u8; 31])
    ensures
        r@ == peripheral_adv_data_spec(),
{
    let mut buf = [0u8; 31];
    let name = peripheral_name();
    let uuids = [[0x34u8, 0x12u8]];
    let ghost before = buf@;
    proof {
        reveal_with_fuel(ad_list, 4);
        reveal_with_fuel(uuid16_bytes, 2);
        assert(uuids@.drop_first() =~= Seq::<[u8; 2]>::empty());
    }
    let res = encode_adv_structures(PERIPHERAL_ADV_FLAGS, &name, &uuids, &mut buf);
    assert(before.subrange(19, 31) =~= Seq::new(12, |i: int| 0u8));
    match res {
        Ok(_) => buf,
        Err(_) => {
            assert(false);
            buf
        },
    }
}

/// The central half recognises the peripheral half: the advertising data
/// the peripheral sends names it.
pub proof fn lemma_central_recognises_peripheral()
    ensures
        adv_has_name(peripheral_adv_data_spec(), peripheral_name_spec()),
{
    let ads = peripheral_structures(PERIPHERAL_ADV_FLAGS, peripheral_name_spec(), seq![[0x34u8, 0x12u8]]);
    let pad = Seq::new(12, |i: int| 0u8);
    reveal_with_fuel(uuid16_bytes, 2);
    assert(seq![[0x34u8, 0x12u8]].drop_first() =~= Seq::<[u8; 2]>::empty());
    assert forall|i: int| 0 <= i < ads.len() implies (#[trigger] ads[i]).1.len() <= 254 by {}
    lemma_scan_finds_listed_name(ads, peripheral_name_spec(), pad);
    assert(ads[1] == (AD_TYPE_COMPLETE_LOCAL_NAME, peripheral_name_spec()));
}

} // verus!
