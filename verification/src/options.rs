//! A builder for configuring `dwprod`.

use crate::error::Error;
use crate::object_file::{object_parses, section_data, section_ok, section_present};
use crate::producers::Producers;
use vstd::prelude::*;

verus! {

/// A builder for configuring `dwprod`.
#[derive(Debug, Default)]
pub struct Options {
    file: String,
}

impl View for Options {
    type V = Seq<char>;

    closed spec fn view(&self) -> Seq<char> {
        self.file@
    }
}

impl Options {
    /// Construct a new `Options` for the shared library or executable at the
    /// given path.
    pub fn new(path: &str) -> (r: Options)
        ensures
            r@ == path@,
    {
        Options { file: path.to_owned() }
    }

    /// The path this `Options` was configured with.
    pub fn path(&self) -> (r: &str)
        ensures
            r@ == self@,
    {
        self.file.as_str()
    }

    /// Finish configuring and get an iterator over the `DW_AT_producer`s in
    /// the compilation units of the given file contents.
    ///
    /// Succeeds exactly when the bytes parse as an object file and the
    /// `.debug_info`, `.debug_abbrev` and `.debug_str` sections can all be
    /// read; a missing section is reported by name, in that order.
    pub fn producers(self, contents: &[u8]) -> (r: Result<Producers, Error>)
        ensures
            r is Ok <==> object_parses(contents@) && section_ok(contents@, ".debug_info"@)
                && section_ok(contents@, ".debug_abbrev"@) && section_ok(contents@, ".debug_str"@),
            r matches Err(e) ==> e is Msg,
            !object_parses(contents@) ==> r is Err,
            object_parses(contents@) && !section_present(contents@, ".debug_info"@) ==> (r matches
            Err(e) && e matches Error::Msg(m) && m@ == "missing .debug_info section"@),
            object_parses(contents@) && section_ok(contents@, ".debug_info"@) && !section_present(
                contents@,
                ".debug_abbrev"@,
            ) ==> (r matches Err(e) && e matches Error::Msg(m) && m@
                == "missing .debug_abbrev section"@),
            object_parses(contents@) && section_ok(contents@, ".debug_info"@) && section_ok(
                contents@,
                ".debug_abbrev"@,
            ) && !section_present(contents@, ".debug_str"@) ==> (r matches Err(e) && e matches
            Error::Msg(m) && m@ == "missing .debug_str section"@),
            r matches Ok(p) ==> Some(crate::dwarf::unit_headers_bytes(p.spec_headers()))
                == section_data(contents@, ".debug_info"@) && Some(
                crate::dwarf::abbrev_section_bytes(p.spec_debug_abbrev()),
            ) == section_data(contents@, ".debug_abbrev"@) && Some(
                crate::dwarf::str_section_bytes(p.spec_debug_str()),
            ) == section_data(contents@, ".debug_str"@),
    {
        let info = match crate::object_file::read_section(contents, ".debug_info") {
            Err(m) => return Err(Error::Msg(m)),
            Ok(None) => return Err(Error::Msg("missing .debug_info section".to_owned())),
            Ok(Some(b)) => b,
        };
        let headers = crate::dwarf::unit_headers(info);

        let abbrev = match crate::object_file::read_section(contents, ".debug_abbrev") {
            Err(m) => return Err(Error::Msg(m)),
            Ok(None) => return Err(Error::Msg("missing .debug_abbrev section".to_owned())),
            Ok(Some(b)) => b,
        };
        let debug_abbrev = crate::dwarf::abbrev_section(abbrev);

        let strs = match crate::object_file::read_section(contents, ".debug_str") {
            Err(m) => return Err(Error::Msg(m)),
            Ok(None) => return Err(Error::Msg("missing .debug_str section".to_owned())),
            Ok(Some(b)) => b,
        };
        let debug_str = crate::dwarf::str_section(strs);

        Ok(Producers::from_sections(debug_str, debug_abbrev, headers))
    }
}

} // verus!
