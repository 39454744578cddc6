//! Trusted boundary to the `object` crate, which parses the container format
//! (ELF, Mach-O, PE, ...) of an executable or shared library.

use object::{Object, ObjectSection};
use vstd::prelude::*;

verus! {

/// Whether the `object` crate can parse these bytes as an object file.
pub uninterp spec fn object_parses(data: Seq<u8>) -> bool;

/// Whether the object file encoded by these bytes has a section with this
/// name. Meaningful only when `object_parses(data)` holds.
pub uninterp spec fn section_present(data: Seq<u8>, name: Seq<char>) -> bool;

/// The bytes of the named section of the object file encoded by `data`, or
/// `None` when the file does not parse, the section is absent, or its data
/// cannot be read.
pub uninterp spec fn section_data(data: Seq<u8>, name: Seq<char>) -> Option<Seq<u8>>;

/// The named section can be read out of the object file encoded by `data`.
pub open spec fn section_ok(data: Seq<u8>, name: Seq<char>) -> bool {
    section_present(data, name) && section_data(data, name) is Some
}

/// Relies on `object::File::parse`, `object::Object::section_by_name` and
/// `object::ObjectSection::data`: parsing and section lookup are functions of
/// the file bytes and the section name alone. Returns the section's bytes,
/// `Ok(None)` when the file parses but has no section with this name, and the
/// display string of the `object` error when parsing or reading fails.
#[verifier::external_body]
pub(crate) fn read_section<'a>(data: &'a [u8], name: &str) -> (r: Result<Option<&'a [u8]>, String>)
    ensures
        r is Err <==> !object_parses(data@) || (section_present(data@, name@) && section_data(
            data@,
            name@,
        ) is None),
        r matches Ok(o) ==> (o is Some <==> section_present(data@, name@)),
        r matches Ok(Some(b)) ==> section_data(data@, name@) == Some(b@),
{
    let file = match object::File::parse(data) {
        Ok(f) => f,
        Err(e) => return Err(format!("{}", e)),
    };
    match file.section_by_name(name) {
        None => Ok(None),
        Some(section) => match section.data() {
            Ok(b) => Ok(Some(b)),
            Err(e) => Err(format!("{}", e)),
        },
    }
}

} // verus!
