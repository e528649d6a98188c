//! Finding the sensor among advertisement reports.
//!
//! An advertisement payload is a chain of structures, each a length byte, a
//! type byte and `length - 1` bytes of data. The local name is the data of
//! the first structure of a name type that is well-formed UTF-8. A report
//! matches when that name is the configured target name, byte for byte.

use crate::config::TARGET_NAME;
use vstd::prelude::*;
use vstd::string::StringSliceAdditionalSpecFns;

verus! {

/// AD type of a shortened local name.
pub const AD_TYPE_SHORTENED_LOCAL_NAME: u8 = 0x08;

/// AD type of a complete local name.
pub const AD_TYPE_COMPLETE_LOCAL_NAME: u8 = 0x09;

/// Address of a device, as it is reported and as it is connected to.
#[derive(Clone, Copy, Debug, PartialEq, Eq)]
pub struct Address {
    pub kind: u8,
    pub addr: [u8; 6],
}

/// What is read of one advertisement report.
#[derive(Clone, Debug)]
pub struct AdvReport {
    pub addr_kind: u8,
    pub addr: [u8; 6],
    pub data: Vec<u8>,
}

/// Picks the matching reports out of a batch.
pub struct ScanEventHandler;

/// Whether a structure of this type carries a local name.
pub open spec fn is_name_type(ad_type: u8) -> bool {
    ad_type == AD_TYPE_SHORTENED_LOCAL_NAME || ad_type == AD_TYPE_COMPLETE_LOCAL_NAME
}

/// The local name found in `data` when reading structures from `start` on.
///
/// Reading stops without a name at the end of the payload, at a structure
/// of length zero and at a structure that runs past the end. A structure of
/// another type, or whose data is not well-formed UTF-8, is skipped.
pub open spec fn local_name_from(data: Seq<u8>, start: int) -> Option<Seq<u8>>
    decreases data.len() - start,
{
    if start < 0 || start >= data.len() {
        None
    } else {
        let length = data[start] as int;
        if length == 0 || start + length >= data.len() {
            None
        } else {
            let ad_data = data.subrange(start + 2, start + 1 + length);
            if is_name_type(data[start + 1]) && vstd::utf8::valid_utf8(ad_data) {
                Some(ad_data)
            } else {
                local_name_from(data, start + length + 1)
            }
        }
    }
}

/// The bytes of the local name that an advertisement payload carries.
pub open spec fn advertised_name(data: Seq<u8>) -> Option<Seq<u8>> {
    local_name_from(data, 0)
}

/// Whether a payload advertises exactly the name `target`.
pub open spec fn name_matches(data: Seq<u8>, target: Seq<u8>) -> bool {
    advertised_name(data) == Some(target)
}

/// The address a report came from.
pub open spec fn report_address(report: AdvReport) -> Address {
    Address { kind: report.addr_kind, addr: report.addr }
}

/// The addresses of the reports that advertise `target`, in the order of the reports.
pub open spec fn matching_addresses(reports: Seq<AdvReport>, target: Seq<u8>) -> Seq<Address>
    decreases reports.len(),
{
    if reports.len() == 0 {
        Seq::empty()
    } else {
        let before = matching_addresses(reports.drop_last(), target);
        if name_matches(reports.last().data@, target) {
            before.push(report_address(reports.last()))
        } else {
            before
        }
    }
}

/// `part` occurs in `whole` as a run of bytes and is shorter than it.
pub open spec fn is_proper_part(part: Seq<u8>, whole: Seq<u8>) -> bool {
    part.len() < whole.len() && exists|offset: int|
        0 <= offset <= whole.len() - part.len() && #[trigger] whole.subrange(
            offset,
            offset + part.len(),
        ) == part
}

/// Checks with `core::str::from_utf8` whether `bytes` are well-formed UTF-8
/// and, if so, returns them as a string slice.
///
/// Trusted: the body is not verified. The contract claims that the call
/// succeeds exactly on well-formed UTF-8 and that the string slice it gives
/// is made of the very bytes it was given.
#[verifier::external_body]
fn utf8_str<'a>(bytes: &'a [u8]) -> (r: Option<&'a str>)
    ensures
        r is Some <==> vstd::utf8::valid_utf8(bytes@),
        r matches Some(s) ==> s.spec_bytes() == bytes@,
{
    core::str::from_utf8(bytes).ok()
}

fn bytes_equal(a: &[u8], b: &[u8]) -> (r: bool)
    ensures
        r == (a@ == b@),
{
    if a.len() != b.len() {
        return false;
    }
    let mut i: usize = 0;
    while i < a.len()
        invariant
            a@.len() == b@.len(),
            i <= a@.len(),
            a@.take(i as int) == b@.take(i as int),
        decreases a@.len() - i,
    {
        if a[i] != b[i] {
            return false;
        }
        assert(a@.take(i + 1) =~= a@.take(i as int).push(a@[i as int]));
        assert(b@.take(i + 1) =~= b@.take(i as int).push(b@[i as int]));
        i += 1;
    }
    assert(a@ =~= a@.take(a@.len() as int));
    assert(b@ =~= b@.take(b@.len() as int));
    true
}

/// Reads the local name out of an advertisement payload.
///
/// Returns the data of the first structure that has a name type and holds
/// well-formed UTF-8, or `None` where the payload has no such structure
/// before it ends or breaks off.
pub fn parse_local_name(data: &[u8]) -> (r: Option<&str>)
    ensures
        match r {
            Some(name) => advertised_name(data@) == Some(name.spec_bytes()),
            None => advertised_name(data@) is None,
        },
{
    let mut i: usize = 0;
    while i < data.len()
        invariant
            i <= data@.len(),
            local_name_from(data@, i as int) == advertised_name(data@),
        decreases data@.len() - i,
    {
        let length: usize = data[i] as usize;
        if length == 0 || length >= data.len() - i {
            return None;
        }
        let ad_type: u8 = data[i + 1];
        if ad_type == AD_TYPE_SHORTENED_LOCAL_NAME || ad_type == AD_TYPE_COMPLETE_LOCAL_NAME {
            let ad_data: &[u8] = &data[i + 2..i + 1 + length];
            if let Some(name) = utf8_str(ad_data) {
                return Some(name);
            }
        }
        i += length + 1;
    }
    None
}

/// Whether an advertisement payload carries exactly the target name.
pub fn advertises_target(data: &[u8]) -> (r: bool)
    ensures
        r == name_matches(data@, TARGET_NAME.spec_bytes()),
{
    match parse_local_name(data) {
        Some(name) => bytes_equal(name.as_bytes(), TARGET_NAME.as_bytes()),
        None => false,
    }
}

impl ScanEventHandler {
    /// Goes through a batch of reports and returns the address of each one
    /// that advertises the target name, in the order of the batch. These are
    /// the scan results to queue.
    pub fn on_adv_reports(&self, reports: &[AdvReport]) -> (found: Vec<Address>)
        ensures
            found@ == matching_addresses(reports@, TARGET_NAME.spec_bytes()),
    {
        let mut found: Vec<Address> = Vec::new();
        let mut i: usize = 0;
        while i < reports.len()
            invariant
                i <= reports@.len(),
                found@ == matching_addresses(reports@.take(i as int), TARGET_NAME.spec_bytes()),
            decreases reports@.len() - i,
        {
            assert(reports@.take(i + 1).drop_last() =~= reports@.take(i as int));
            if advertises_target(reports[i].data.as_slice()) {
                found.push(Address { kind: reports[i].addr_kind, addr: reports[i].addr });
            }
            i += 1;
        }
        assert(reports@.take(reports@.len() as int) =~= reports@);
        found
    }
}

/// The bytes of the target name: the seven characters of "34660-5".
pub proof fn lemma_target_name_bytes()
    ensures
        TARGET_NAME.spec_bytes() == seq![0x33u8, 0x34, 0x36, 0x36, 0x30, 0x2D, 0x35],
{
    reveal_strlit("34660-5");
    vstd::string::is_ascii_spec_bytes(TARGET_NAME);
    assert(TARGET_NAME.spec_bytes() =~= seq![0x33u8, 0x34, 0x36, 0x36, 0x30, 0x2D, 0x35]);
}

/// Matching is exact: a payload whose local name is a proper part of the
/// target name, or of which the target name is a proper part, does not match.
/// Only a name equal to the target, byte for byte, does.
pub proof fn lemma_name_match_is_exact(data: Seq<u8>, target: Seq<u8>)
    ensures
        name_matches(data, target) <==> (advertised_name(data) is Some && advertised_name(data)->0
            == target),
        advertised_name(data) is Some && (is_proper_part(advertised_name(data)->0, target)
            || is_proper_part(target, advertised_name(data)->0)) ==> !name_matches(data, target),
{
}

} // verus!
