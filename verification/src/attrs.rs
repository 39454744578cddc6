//! A plain-value model of the attributes on a compilation unit's root entry,
//! and the scan that picks out the producer attribute.

use vstd::prelude::*;

verus! {

/// The DWARF attribute code of `DW_AT_producer`.
pub const DW_AT_PRODUCER: u16 = 0x25;

/// One attribute value, reduced to the three shapes the producer search
/// distinguishes.
#[derive(Debug)]
pub enum AttrPayload {
    /// An offset of a string in the `.debug_str` section.
    StrRef(usize),
    /// An inline block of bytes.
    Block(Vec<u8>),
    /// Any other kind of value.
    Other,
}

/// One attribute of a unit's root entry: its code and its value.
#[derive(Debug)]
pub struct RootAttr {
    /// The attribute's code (a `DW_AT_*` constant).
    pub code: u16,
    /// The attribute's value.
    pub payload: AttrPayload,
}

/// A usable producer attribute: its code is `DW_AT_producer` and its value is
/// of a shape the search knows how to turn into a string.
pub open spec fn is_producer_attr(a: RootAttr) -> bool {
    a.code == DW_AT_PRODUCER && !(a.payload is Other)
}

/// Find the first usable producer attribute in a root entry's attribute list.
///
/// A `DW_AT_producer` attribute whose value has an unknown shape is skipped,
/// and the scan goes on looking for another one.
pub fn find_producer(attrs: &Vec<RootAttr>) -> (r: Option<usize>)
    ensures
        r matches Some(i) ==> i < attrs@.len() && is_producer_attr(attrs@[i as int])
            && (forall|j: int| 0 <= j < i ==> !is_producer_attr(attrs@[j])),
        r is None ==> forall|j: int| 0 <= j < attrs@.len() ==> !is_producer_attr(attrs@[j]),
{
    let n = attrs.len();
    let mut i: usize = 0;
    while i < n
        invariant
            n == attrs@.len(),
            i <= n,
            forall|j: int| 0 <= j < i ==> !is_producer_attr(attrs@[j]),
        decreases n - i,
    {
        let a = &attrs[i];
        if a.code == DW_AT_PRODUCER {
            match &a.payload {
                AttrPayload::StrRef(_) => {
                    return Some(i);
                },
                AttrPayload::Block(_) => {
                    return Some(i);
                },
                AttrPayload::Other => {},
            }
        }
        i = i + 1;
    }
    None
}

} // verus!
