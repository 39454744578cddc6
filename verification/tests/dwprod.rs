use dwprod::attrs::{find_producer, AttrPayload, RootAttr, DW_AT_PRODUCER};
use dwprod::{Error, Options, Producers};

#[test]
fn it_works() {
    assert_eq!(2 + 2, 4);
}

#[test]
fn options_new_keeps_path() {
    let opts = Options::new("/usr/lib/libexample.so");
    assert_eq!(opts.path(), "/usr/lib/libexample.so");
}

#[test]
fn error_message_for_msg() {
    let e = Error::Msg(String::from("something went wrong"));
    assert_eq!(e.message(), "something went wrong");
}

#[test]
fn error_from_string_is_msg() {
    let e = Error::from(String::from("boom"));
    assert!(matches!(e, Error::Msg(m) if m == "boom"));
}

#[test]
fn error_from_str_is_msg() {
    let e = Error::from("boom");
    assert!(matches!(e, Error::Msg(m) if m == "boom"));
}

#[test]
fn error_message_for_dwarf() {
    let e = Error::Dwarf(gimli::Error::BadUtf8);
    assert_eq!(e.message(), format!("{}", gimli::Error::BadUtf8));
}

#[test]
fn error_from_gimli_is_dwarf() {
    let e = Error::from(gimli::Error::BadUtf8);
    assert!(matches!(e, Error::Dwarf(gimli::Error::BadUtf8)));
}

#[test]
fn find_producer_picks_first_usable() {
    let attrs = vec![
        RootAttr { code: 0x03, payload: AttrPayload::Other },
        RootAttr { code: DW_AT_PRODUCER, payload: AttrPayload::StrRef(7) },
        RootAttr { code: DW_AT_PRODUCER, payload: AttrPayload::Block(vec![1, 2]) },
    ];
    assert_eq!(find_producer(&attrs), Some(1));
}

#[test]
fn find_producer_skips_unknown_value_shapes() {
    let attrs = vec![
        RootAttr { code: DW_AT_PRODUCER, payload: AttrPayload::Other },
        RootAttr { code: DW_AT_PRODUCER, payload: AttrPayload::Block(vec![b'x']) },
    ];
    assert_eq!(find_producer(&attrs), Some(1));
}

#[test]
fn find_producer_none_without_producer() {
    let attrs = vec![
        RootAttr { code: 0x03, payload: AttrPayload::StrRef(0) },
        RootAttr { code: DW_AT_PRODUCER, payload: AttrPayload::Other },
    ];
    assert_eq!(find_producer(&attrs), None);
}

/// Build a little-endian ELF object holding the given debug sections.
fn make_elf(sections: &[(&str, &[u8])]) -> Vec<u8> {
    let mut obj = object::write::Object::new(
        object::BinaryFormat::Elf,
        object::Architecture::X86_64,
        object::Endianness::Little,
    );
    for (name, data) in sections {
        let id = obj.add_section(Vec::new(), name.as_bytes().to_vec(), object::SectionKind::Debug);
        obj.append_section_data(id, data, 1);
    }
    obj.write().expect("writing the test object file should succeed")
}

/// Wrap DWARF32 unit contents in a compilation-unit header (version 4).
fn compilation_unit(dies: &[u8], abbrev_offset: u32) -> Vec<u8> {
    let mut body: Vec<u8> = Vec::new();
    body.extend_from_slice(&4u16.to_le_bytes());
    body.extend_from_slice(&abbrev_offset.to_le_bytes());
    body.push(8);
    body.extend_from_slice(dies);
    let mut out: Vec<u8> = Vec::new();
    out.extend_from_slice(&(body.len() as u32).to_le_bytes());
    out.extend_from_slice(&body);
    out
}

const DW_TAG_COMPILE_UNIT: u8 = 0x11;
const DW_CHILDREN_NO: u8 = 0x00;
const DW_AT_NAME: u8 = 0x03;
const DW_AT_PRODUCER_CODE: u8 = 0x25;
const DW_FORM_STRING: u8 = 0x08;
const DW_FORM_BLOCK1: u8 = 0x0a;
const DW_FORM_STRP: u8 = 0x0e;

#[test]
fn producers_rejects_garbage() {
    let opts = Options::new("not-a-real-file");
    let r = opts.producers(b"this is not an object file");
    assert!(matches!(r, Err(Error::Msg(_))));
}

#[test]
fn producers_reports_missing_debug_info() {
    let elf = make_elf(&[(".debug_abbrev", &[0u8]), (".debug_str", b"\0")]);
    let r = Options::new("x").producers(&elf);
    assert!(matches!(r, Err(Error::Msg(m)) if m == "missing .debug_info section"));
}

#[test]
fn producers_reports_missing_debug_abbrev() {
    let elf = make_elf(&[(".debug_info", &[]), (".debug_str", b"\0")]);
    let r = Options::new("x").producers(&elf);
    assert!(matches!(r, Err(Error::Msg(m)) if m == "missing .debug_abbrev section"));
}

#[test]
fn producers_reports_missing_debug_str() {
    let elf = make_elf(&[(".debug_info", &[]), (".debug_abbrev", &[0u8])]);
    let r = Options::new("x").producers(&elf);
    assert!(matches!(r, Err(Error::Msg(m)) if m == "missing .debug_str section"));
}

#[test]
fn empty_debug_info_yields_none() {
    let elf = make_elf(&[
        (".debug_info", &[]),
        (".debug_abbrev", &[0u8]),
        (".debug_str", b"\0"),
    ]);
    let mut producers: Producers = Options::new("x").producers(&elf).expect("should succeed");
    assert!(matches!(producers.next(), Ok(None)));
    // An exhausted iterator stays exhausted.
    assert!(matches!(producers.next(), Ok(None)));
    assert!(matches!(producers.next(), Ok(None)));
}

#[test]
fn producer_from_strp_attribute() {
    // One abbreviation: a compile unit whose producer is a .debug_str offset.
    let abbrev: Vec<u8> = vec![
        1, DW_TAG_COMPILE_UNIT, DW_CHILDREN_NO, DW_AT_PRODUCER_CODE, DW_FORM_STRP, 0, 0, 0,
    ];
    let debug_str = b"ignored\0clang LLVM test 1.0\0";
    let mut dies: Vec<u8> = vec![1];
    dies.extend_from_slice(&8u32.to_le_bytes());
    let info = compilation_unit(&dies, 0);
    let elf = make_elf(&[
        (".debug_info", &info),
        (".debug_abbrev", &abbrev),
        (".debug_str", debug_str),
    ]);
    let mut producers = Options::new("x").producers(&elf).expect("should succeed");
    let first = producers.next().expect("walking the unit should succeed");
    assert_eq!(first, Some(String::from("clang LLVM test 1.0")));
    assert!(matches!(producers.next(), Ok(None)));
}

#[test]
fn producer_from_block_attribute() {
    // One abbreviation: a compile unit whose producer is an inline block.
    let abbrev: Vec<u8> = vec![
        1, DW_TAG_COMPILE_UNIT, DW_CHILDREN_NO, DW_AT_PRODUCER_CODE, DW_FORM_BLOCK1, 0, 0, 0,
    ];
    let block = b"GNU C test 9.9";
    let mut dies: Vec<u8> = vec![1, block.len() as u8];
    dies.extend_from_slice(block);
    let info = compilation_unit(&dies, 0);
    let elf = make_elf(&[
        (".debug_info", &info),
        (".debug_abbrev", &abbrev),
        (".debug_str", b"\0"),
    ]);
    let mut producers = Options::new("x").producers(&elf).expect("should succeed");
    let first = producers.next().expect("walking the unit should succeed");
    assert_eq!(first, Some(String::from("GNU C test 9.9")));
    assert!(matches!(producers.next(), Ok(None)));
}

#[test]
fn unit_without_producer_is_skipped() {
    // Two abbreviations: code 1 has only a name, code 2 has a producer.
    let abbrev: Vec<u8> = vec![
        1, DW_TAG_COMPILE_UNIT, DW_CHILDREN_NO, DW_AT_NAME, DW_FORM_STRING, 0, 0,
        2, DW_TAG_COMPILE_UNIT, DW_CHILDREN_NO, DW_AT_PRODUCER_CODE, DW_FORM_STRP, 0, 0,
        0,
    ];
    let mut dies_one: Vec<u8> = vec![1];
    dies_one.extend_from_slice(b"first.c\0");
    let mut dies_two: Vec<u8> = vec![2];
    dies_two.extend_from_slice(&0u32.to_le_bytes());
    let mut info = compilation_unit(&dies_one, 0);
    info.extend_from_slice(&compilation_unit(&dies_two, 0));
    let elf = make_elf(&[
        (".debug_info", &info),
        (".debug_abbrev", &abbrev),
        (".debug_str", b"rustc test\0"),
    ]);
    let mut producers = Options::new("x").producers(&elf).expect("should succeed");
    let first = producers.next().expect("walking the units should succeed");
    assert_eq!(first, Some(String::from("rustc test")));
    assert!(matches!(producers.next(), Ok(None)));
}

#[test]
fn invalid_utf8_block_is_dwarf_error() {
    let abbrev: Vec<u8> = vec![
        1, DW_TAG_COMPILE_UNIT, DW_CHILDREN_NO, DW_AT_PRODUCER_CODE, DW_FORM_BLOCK1, 0, 0, 0,
    ];
    let dies: Vec<u8> = vec![1, 2, 0xff, 0xfe];
    let info = compilation_unit(&dies, 0);
    let elf = make_elf(&[
        (".debug_info", &info),
        (".debug_abbrev", &abbrev),
        (".debug_str", b"\0"),
    ]);
    let mut producers = Options::new("x").producers(&elf).expect("should succeed");
    assert!(matches!(producers.next(), Err(Error::Dwarf(_))));
}

#[test]
fn out_of_range_strp_offset_is_dwarf_error() {
    let abbrev: Vec<u8> = vec![
        1, DW_TAG_COMPILE_UNIT, DW_CHILDREN_NO, DW_AT_PRODUCER_CODE, DW_FORM_STRP, 0, 0, 0,
    ];
    let mut dies: Vec<u8> = vec![1];
    dies.extend_from_slice(&1000u32.to_le_bytes());
    let info = compilation_unit(&dies, 0);
    let elf = make_elf(&[
        (".debug_info", &info),
        (".debug_abbrev", &abbrev),
        (".debug_str", b"short\0"),
    ]);
    let mut producers = Options::new("x").producers(&elf).expect("should succeed");
    assert!(matches!(producers.next(), Err(Error::Dwarf(_))));
}

#[test]
fn truncated_unit_header_is_dwarf_error() {
    // The unit claims far more bytes than the section holds.
    let info: Vec<u8> = vec![100, 0, 0, 0, 4, 0];
    let elf = make_elf(&[
        (".debug_info", &info),
        (".debug_abbrev", &[0u8]),
        (".debug_str", b"\0"),
    ]);
    let mut producers = Options::new("x").producers(&elf).expect("should succeed");
    assert!(matches!(producers.next(), Err(Error::Dwarf(_))));
}

#[test]
fn empty_producer_string() {
    let abbrev: Vec<u8> = vec![
        1, DW_TAG_COMPILE_UNIT, DW_CHILDREN_NO, DW_AT_PRODUCER_CODE, DW_FORM_STRP, 0, 0, 0,
    ];
    let mut dies: Vec<u8> = vec![1];
    dies.extend_from_slice(&2u32.to_le_bytes());
    let info = compilation_unit(&dies, 0);
    let elf = make_elf(&[
        (".debug_info", &info),
        (".debug_abbrev", &abbrev),
        (".debug_str", b"ab\0tail\0"),
    ]);
    let mut producers = Options::new("x").producers(&elf).expect("should succeed");
    let first = producers.next().expect("walking the unit should succeed");
    assert_eq!(first, Some(String::new()));
}
