//! An iterator over the `DW_AT_producer` strings of a file's compilation
//! units.

use crate::attrs::{find_producer, is_producer_attr, AttrPayload, RootAttr};
use crate::dwarf::{
    entry_attrs, null_terminated_at, str_section_bytes, unit_headers_bytes, utf8_of, AbbrevSection,
    RootEntry, StrSection, UnitHandle, UnitHeaders,
};
use crate::error::Error;
use vstd::prelude::*;

verus! {

/// An iterator yielding a `String` for the `DW_AT_producer` of each
/// compilation unit in the configured file.
#[derive(Debug)]
#[verifier::ext_equal]
pub struct Producers {
    debug_str: StrSection,
    debug_abbrev: AbbrevSection,
    headers: UnitHeaders,
}

/// The string `s` is what some compilation unit's root entry `e` yields: its
/// attribute `i` is the first usable `DW_AT_producer`, and `s` is the UTF-8
/// decoding of that attribute's bytes — the NUL-terminated string of the
/// `.debug_str` reader `strs` at the attribute's offset for a string
/// reference, or the block's own bytes for an inline block.
pub open spec fn yields_producer_string(
    strs: StrSection,
    e: RootEntry,
    i: int,
    s: Seq<char>,
) -> bool {
    &&& 0 <= i < entry_attrs(e).len()
    &&& is_producer_attr(entry_attrs(e)[i])
    &&& forall|j: int| 0 <= j < i ==> !is_producer_attr(entry_attrs(e)[j])
    &&& match entry_attrs(e)[i].payload {
        AttrPayload::StrRef(off) => exists|b: Seq<u8>|
            null_terminated_at(str_section_bytes(strs), off as int) == Some(b) && utf8_of(b)
                == Some(s),
        AttrPayload::Block(b) => utf8_of(b@) == Some(s),
        AttrPayload::Other => false,
    }
}

/// Some compilation unit's root entry yields `s` as its producer string.
pub open spec fn some_unit_yields(strs: StrSection, s: Seq<char>) -> bool {
    exists|e: RootEntry, i: int| yields_producer_string(strs, e, i, s)
}

impl Producers {
    /// The `.debug_str` reader strings are resolved against.
    pub closed spec fn spec_debug_str(self) -> StrSection {
        self.debug_str
    }

    /// The `.debug_abbrev` reader abbreviations are parsed from.
    pub closed spec fn spec_debug_abbrev(self) -> AbbrevSection {
        self.debug_abbrev
    }

    /// The iterator over the `.debug_info` section's unit headers.
    pub closed spec fn spec_headers(self) -> UnitHeaders {
        self.headers
    }

    pub(crate) fn from_sections(
        debug_str: StrSection,
        debug_abbrev: AbbrevSection,
        headers: UnitHeaders,
    ) -> (r: Producers)
        ensures
            r.spec_debug_str() == debug_str,
            r.spec_debug_abbrev() == debug_abbrev,
            r.spec_headers() == headers,
    {
        Producers { debug_str, debug_abbrev, headers }
    }

    /// Get the next `DW_AT_producer`, if any.
    ///
    /// Walks unit headers until one's root entry carries a usable
    /// `DW_AT_producer` attribute, resolves its value to a string, and
    /// returns it; returns `Ok(None)` once the unit headers are exhausted,
    /// and the DWARF error on a parsing failure. The section readers are
    /// never modified, the unit headers' remaining input never grows and
    /// shrinks whenever a string is yielded, an exhausted iterator stays
    /// exhausted and unchanged, and every yielded string is the decoding of
    /// some root entry's first usable producer attribute. Which unit and
    /// which bytes those are depends on DWARF data this library does not
    /// model.
    pub fn next(&mut self) -> (r: Result<Option<String>, Error>)
        ensures
            final(self).spec_debug_str() == old(self).spec_debug_str(),
            final(self).spec_debug_abbrev() == old(self).spec_debug_abbrev(),
            r matches Err(e) ==> e is Dwarf,
            r matches Ok(None) ==> unit_headers_bytes(final(self).spec_headers()).len() == 0,
            unit_headers_bytes(old(self).spec_headers()).len() == 0 ==> (r matches Ok(None)
                && *final(self) == *old(self)),
            unit_headers_bytes(final(self).spec_headers()).len() <= unit_headers_bytes(
                old(self).spec_headers(),
            ).len(),
            r matches Ok(Some(_)) ==> unit_headers_bytes(final(self).spec_headers()).len()
                < unit_headers_bytes(old(self).spec_headers()).len(),
            r matches Ok(Some(s)) ==> some_unit_yields(old(self).spec_debug_str(), s@),
    {
        let ghost orig = *self;
        loop
            invariant
                orig == *old(self),
                self.debug_str == orig.debug_str,
                self.debug_abbrev == orig.debug_abbrev,
                unit_headers_bytes(self.headers).len() <= unit_headers_bytes(orig.headers).len(),
                unit_headers_bytes(orig.headers).len() == 0 ==> self.headers == orig.headers,
            decreases unit_headers_bytes(self.headers).len(),
        {
            let unit: UnitHandle = match crate::dwarf::next_unit(&mut self.headers) {
                Err(e) => return Err(Error::Dwarf(e)),
                Ok(None) => {
                    proof {
                        if unit_headers_bytes(orig.headers).len() == 0 {
                            assert(*self =~= orig);
                        }
                    }
                    return Ok(None);
                },
                Ok(Some(h)) => h,
            };

            let abbrevs = match crate::dwarf::unit_abbreviations(&unit, &self.debug_abbrev) {
                Err(e) => return Err(Error::Dwarf(e)),
                Ok(a) => a,
            };

            let entry: RootEntry = match crate::dwarf::unit_root_entry(&unit, &abbrevs) {
                Err(e) => return Err(Error::Dwarf(e)),
                Ok(e) => e,
            };

            let n = crate::dwarf::entry_attr_count(&entry);
            let mut attrs: Vec<RootAttr> = Vec::new();
            let mut i: usize = 0;
            while i < n
                invariant
                    n == entry_attrs(entry).len(),
                    i <= n,
                    attrs@ =~= entry_attrs(entry).subrange(0, i as int),
                decreases n - i,
            {
                let a = crate::dwarf::entry_attr(&entry, i);
                attrs.push(a);
                i = i + 1;
            }
            proof {
                assert(attrs@ =~= entry_attrs(entry));
            }

            match find_producer(&attrs) {
                None => {
                    // No usable DW_AT_producer in this unit; go on to the
                    // next unit header.
                },
                Some(idx) => {
                    match &attrs[idx].payload {
                        AttrPayload::StrRef(off) => {
                            let bytes = match crate::dwarf::get_str(&self.debug_str, *off) {
                                Err(e) => return Err(Error::Dwarf(e)),
                                Ok(b) => b,
                            };
                            match crate::dwarf::bytes_to_utf8(bytes.as_slice()) {
                                Err(e) => return Err(Error::Dwarf(e)),
                                Ok(s) => {
                                    proof {
                                        assert(some_unit_yields(orig.spec_debug_str(), s@)) by {
                                            assert(yields_producer_string(
                                                orig.spec_debug_str(),
                                                entry,
                                                idx as int,
                                                s@,
                                            ));
                                        }
                                    }
                                    return Ok(Some(s));
                                },
                            }
                        },
                        AttrPayload::Block(b) => {
                            match crate::dwarf::bytes_to_utf8(b.as_slice()) {
                                Err(e) => return Err(Error::Dwarf(e)),
                                Ok(s) => {
                                    proof {
                                        assert(some_unit_yields(orig.spec_debug_str(), s@)) by {
                                            assert(yields_producer_string(
                                                orig.spec_debug_str(),
                                                entry,
                                                idx as int,
                                                s@,
                                            ));
                                        }
                                    }
                                    return Ok(Some(s));
                                },
                            }
                        },
                        AttrPayload::Other => {
                            // find_producer never picks an attribute whose
                            // value shape is unknown.
                            proof {
                                assert(false);
                            }
                            return Ok(None);
                        },
                    }
                },
            }
        }
    }
}

} // verus!
