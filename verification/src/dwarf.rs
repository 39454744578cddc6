//! Trusted boundary to the `gimli` crate, which decodes the DWARF debug
//! information itself: section readers, compilation-unit headers,
//! abbreviations and attributes.
//!
//! The gimli state that the library holds (section readers, the unit-header
//! iterator, a unit's root entry) is kept in opaque wrapper structs, and each
//! gimli call the library makes stands behind one small function whose
//! contract Verus believes.

use crate::attrs::{AttrPayload, RootAttr};
use gimli::Error as GimliError;
use std::rc::Rc;
use vstd::prelude::*;

verus! {

#[verifier::external_type_specification]
#[verifier::external_body]
pub struct ExGimliError(GimliError);

#[verifier::external_type_specification]
#[verifier::external_body]
pub struct ExAbbreviations(gimli::Abbreviations);

/// A reader over the bytes of a `.debug_str` section.
#[verifier::external_body]
#[derive(Debug)]
pub struct StrSection {
    inner: gimli::DebugStr<gimli::EndianRcSlice<gimli::NativeEndian>>,
}

/// A reader over the bytes of a `.debug_abbrev` section.
#[verifier::external_body]
#[derive(Debug)]
pub struct AbbrevSection {
    inner: gimli::DebugAbbrev<gimli::EndianRcSlice<gimli::NativeEndian>>,
}

/// An iterator over the compilation-unit headers of a `.debug_info` section.
#[verifier::external_body]
#[derive(Debug)]
pub struct UnitHeaders {
    inner: gimli::DebugInfoUnitHeadersIter<gimli::EndianRcSlice<gimli::NativeEndian>>,
}

/// One compilation-unit header.
#[verifier::external_body]
#[derive(Debug)]
pub struct UnitHandle {
    inner: gimli::UnitHeader<gimli::EndianRcSlice<gimli::NativeEndian>>,
}

/// The root debugging-information entry of a compilation unit.
#[verifier::external_body]
#[derive(Debug)]
pub struct RootEntry {
    inner: gimli::DebuggingInformationEntry<gimli::EndianRcSlice<gimli::NativeEndian>>,
}

/// The section bytes a `StrSection` reader holds.
pub uninterp spec fn str_section_bytes(s: StrSection) -> Seq<u8>;

/// The section bytes an `AbbrevSection` reader holds.
pub uninterp spec fn abbrev_section_bytes(a: AbbrevSection) -> Seq<u8>;

/// The input a `UnitHeaders` iterator has left to walk.
pub uninterp spec fn unit_headers_bytes(u: UnitHeaders) -> Seq<u8>;

/// The attributes of a root entry, each reduced to its code and the shape of
/// its value.
pub uninterp spec fn entry_attrs(e: RootEntry) -> Seq<RootAttr>;

/// The characters the UTF-8 decoding of these bytes yields, or `None` when
/// they are not valid UTF-8.
pub uninterp spec fn utf8_of(bytes: Seq<u8>) -> Option<Seq<char>>;

/// The position of the first NUL byte in `sec` at or after `off`.
pub open spec fn first_nul_from(sec: Seq<u8>, off: int) -> Option<int>
    decreases sec.len() - off,
{
    if off < 0 || off >= sec.len() {
        None
    } else if sec[off] == 0 {
        Some(off)
    } else {
        first_nul_from(sec, off + 1)
    }
}

/// The NUL-terminated string that starts at `off` in `sec`, without its
/// terminator, or `None` when `off` is out of range or no NUL follows it.
pub open spec fn null_terminated_at(sec: Seq<u8>, off: int) -> Option<Seq<u8>> {
    match first_nul_from(sec, off) {
        Some(end) => Some(sec.subrange(off, end)),
        None => None,
    }
}

/// Relies on `gimli::EndianRcSlice::new` and `gimli::DebugStr::from`: the
/// reader holds exactly the bytes it was constructed over.
#[verifier::external_body]
pub(crate) fn str_section(data: &[u8]) -> (r: StrSection)
    ensures
        str_section_bytes(r) == data@,
{
    StrSection { inner: gimli::DebugStr::from(gimli::EndianRcSlice::new(Rc::from(data), gimli::NativeEndian)) }
}

/// Relies on `gimli::EndianRcSlice::new` and `gimli::DebugAbbrev::from`: the
/// reader holds exactly the bytes it was constructed over.
#[verifier::external_body]
pub(crate) fn abbrev_section(data: &[u8]) -> (r: AbbrevSection)
    ensures
        abbrev_section_bytes(r) == data@,
{
    AbbrevSection { inner: gimli::DebugAbbrev::from(gimli::EndianRcSlice::new(Rc::from(data), gimli::NativeEndian)) }
}

/// Relies on `gimli::EndianRcSlice::new`, `gimli::DebugInfo::from` and
/// `gimli::DebugInfo::units`: the iterator starts with the whole section's
/// bytes still to walk.
#[verifier::external_body]
pub(crate) fn unit_headers(data: &[u8]) -> (r: UnitHeaders)
    ensures
        unit_headers_bytes(r) == data@,
{
    let info: gimli::DebugInfo<_> = gimli::DebugInfo::from(gimli::EndianRcSlice::new(Rc::from(data), gimli::NativeEndian));
    UnitHeaders { inner: info.units() }
}

/// Relies on `gimli::DebugInfoUnitHeadersIter::next`: it yields the next
/// compilation-unit header, `Ok(None)` at the end of the section, and an
/// error on a malformed header. Which header comes back depends on DWARF
/// data this library does not model; what is claimed is what the source
/// shows of the iterator's input: `Ok(None)` comes exactly when the input is
/// empty and leaves the iterator unchanged, a successful step consumes at
/// least one byte (a parsed unit header is never empty), and an error
/// empties the input.
#[verifier::external_body]
pub(crate) fn next_unit(u: &mut UnitHeaders) -> (r: Result<Option<UnitHandle>, gimli::Error>)
    ensures
        r matches Ok(Some(_)) ==> unit_headers_bytes(*final(u)).len() < unit_headers_bytes(
            *old(u),
        ).len(),
        r matches Ok(None) <==> unit_headers_bytes(*old(u)).len() == 0,
        r matches Ok(None) ==> *final(u) == *old(u),
        r is Err ==> unit_headers_bytes(*final(u)).len() == 0,
{
    match u.inner.next() {
        Ok(Some(h)) => Ok(Some(UnitHandle { inner: h })),
        Ok(None) => Ok(None),
        Err(e) => Err(e),
    }
}

/// Relies on `gimli::UnitHeader::abbreviations`: it parses the unit's
/// abbreviations table out of the `.debug_abbrev` section. The result depends
/// on DWARF data this library does not model, so nothing is claimed of it.
#[verifier::external_body]
pub(crate) fn unit_abbreviations(h: &UnitHandle, a: &AbbrevSection) -> (r: Result<
    gimli::Abbreviations,
    gimli::Error,
>) {
    h.inner.abbreviations(&a.inner)
}

/// Relies on `gimli::UnitHeader::root_offset` and `gimli::UnitHeader::entry`:
/// it reads the unit's root debugging-information entry, with all its
/// attributes parsed. The result depends on DWARF data this library does not
/// model, so nothing is claimed of it.
#[verifier::external_body]
pub(crate) fn unit_root_entry(h: &UnitHandle, ab: &gimli::Abbreviations) -> (r: Result<
    RootEntry,
    gimli::Error,
>) {
    match h.inner.entry(ab, h.inner.root_offset()) {
        Ok(e) => Ok(RootEntry { inner: e }),
        Err(e) => Err(e),
    }
}

/// Relies on `gimli::DebuggingInformationEntry::attrs` and `slice::len`: the
/// number of attributes on the root entry.
#[verifier::external_body]
pub(crate) fn entry_attr_count(e: &RootEntry) -> (n: usize)
    ensures
        n == entry_attrs(*e).len(),
{
    e.inner.attrs().len()
}

/// Relies on `gimli::DebuggingInformationEntry::attrs`, `gimli::Attribute::name`
/// and `gimli::Attribute::value`: hands out one attribute, reduced to its code
/// and to the shape of its value — a `.debug_str` offset for
/// `AttributeValue::DebugStrRef`, the block's bytes for
/// `AttributeValue::Block`, and `Other` for every other shape.
#[verifier::external_body]
pub(crate) fn entry_attr(e: &RootEntry, i: usize) -> (a: RootAttr)
    requires
        i < entry_attrs(*e).len(),
    ensures
        a == entry_attrs(*e)[i as int],
{
    let attr = &e.inner.attrs()[i];
    let payload = match attr.value() {
        gimli::AttributeValue::DebugStrRef(offset) => AttrPayload::StrRef(offset.0),
        gimli::AttributeValue::Block(data) => AttrPayload::Block(data.bytes().to_vec()),
        _ => AttrPayload::Other,
    };
    RootAttr { code: attr.name().0, payload }
}

/// Relies on `gimli::DebugStr::get_str` (and `gimli::EndianReader::bytes` to
/// read the result out): it returns the NUL-terminated string starting at
/// `off` in the section, without the terminator, and fails when `off` is past
/// the section's end or no NUL follows it.
#[verifier::external_body]
pub(crate) fn get_str(s: &StrSection, off: usize) -> (r: Result<Vec<u8>, gimli::Error>)
    ensures
        r is Ok <==> null_terminated_at(str_section_bytes(*s), off as int) is Some,
        r matches Ok(b) ==> Some(b@) == null_terminated_at(str_section_bytes(*s), off as int),
{
    match s.inner.get_str(gimli::DebugStrOffset(off)) {
        Ok(bytes) => Ok(bytes.bytes().to_vec()),
        Err(e) => Err(e),
    }
}

/// Relies on `gimli::EndianSlice::to_string`, which runs `str::from_utf8` on
/// the bytes: the decoding is a function of the bytes alone, and fails
/// exactly when they are not valid UTF-8.
#[verifier::external_body]
pub(crate) fn bytes_to_utf8(b: &[u8]) -> (r: Result<String, gimli::Error>)
    ensures
        r is Ok <==> utf8_of(b@) is Some,
        r matches Ok(s) ==> Some(s@) == utf8_of(b@),
{
    match gimli::EndianSlice::new(b, gimli::NativeEndian).to_string() {
        Ok(s) => Ok(s.to_string()),
        Err(e) => Err(e),
    }
}

/// The display text of a `gimli::Error`.
pub uninterp spec fn gimli_error_text(e: gimli::Error) -> Seq<char>;

/// Relies on `gimli::Error`'s `Display` impl: a human-readable description of
/// the error, a function of the error value alone.
#[verifier::external_body]
pub(crate) fn gimli_error_message(e: &gimli::Error) -> (r: String)
    ensures
        r@ == gimli_error_text(*e),
{
    format!("{}", e)
}

} // verus!
