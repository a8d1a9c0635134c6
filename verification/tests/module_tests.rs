use hookcore::module::ModuleInfo;
use hookcore::pattern::Pattern;

fn make_module(base: usize, bytes: Vec<u8>, exports: Vec<(String, usize)>) -> ModuleInfo {
    ModuleInfo {
        handle: 0x1000,
        base,
        size: bytes.len(),
        filename: "engine.dll".to_string(),
        bytes,
        exports,
    }
}

#[test]
fn module_find_reports_absolute_address() {
    let mut bytes = vec![0u8; 32];
    bytes[20] = 0xAA;
    bytes[21] = 0xBB;
    let m = make_module(0x40_0000, bytes, vec![]);
    let p = Pattern(vec![(0xAA, true), (0xBB, true)]);
    assert_eq!(m.find(&p), Some(0x40_0000 + 20));
}

#[test]
fn module_find_without_match_is_none() {
    let m = make_module(0x40_0000, vec![0u8; 32], vec![]);
    let p = Pattern(vec![(0xAA, true), (0xBB, true)]);
    assert_eq!(m.find(&p), None);
}

#[test]
fn module_shorter_than_signature_is_none() {
    let m = make_module(0x40_0000, vec![0xAA], vec![]);
    let p = Pattern(vec![(0xAA, true), (0xBB, true)]);
    assert_eq!(m.find(&p), None);
}

#[test]
fn export_lookup_finds_first_entry() {
    let exports = vec![
        ("CreateInterface".to_string(), 0x40_0500),
        ("Other".to_string(), 0x40_0600),
        ("CreateInterface".to_string(), 0x40_0700),
    ];
    let m = make_module(0x40_0000, vec![0u8; 16], exports);
    assert_eq!(m.get_function(&"CreateInterface".to_string()), Some(0x40_0500));
    assert_eq!(m.get_function(&"Other".to_string()), Some(0x40_0600));
    assert_eq!(m.get_function(&"Absent".to_string()), None);
}

#[test]
fn read_u32_le_assembles_little_endian() {
    let mut bytes = vec![0u8; 16];
    bytes[4] = 0xAA;
    bytes[5] = 0xBB;
    bytes[6] = 0xCC;
    bytes[7] = 0xDD;
    let m = make_module(0x40_0000, bytes, vec![]);
    assert_eq!(m.read_u32_le(4), 0xDDCCBBAA);
}

#[test]
fn duplicate_copies_every_field() {
    let m = make_module(
        0x40_0000,
        vec![1, 2, 3, 4],
        vec![("F".to_string(), 7)],
    );
    let d = m.duplicate();
    assert_eq!(d.handle, m.handle);
    assert_eq!(d.base, m.base);
    assert_eq!(d.size, m.size);
    assert_eq!(d.filename, m.filename);
    assert_eq!(d.bytes, m.bytes);
    assert_eq!(d.exports, m.exports);
}
