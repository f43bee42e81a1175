use devbridge::hex::{hex_sections, read_hex, HexRecord, HexSection, HexState};

#[test]
fn push_section_drops_an_empty_section() {
    let mut state = HexState {
        extended: 0,
        address: 0x100,
        size: 0,
    };
    let mut sections: Vec<HexSection> = Vec::new();
    state.push_section(&mut sections);
    assert_eq!(sections.len(), 0);
    assert_eq!(state.size, 0);
}

#[test]
fn push_section_flushes_an_open_section() {
    let mut state = HexState {
        extended: 0,
        address: 0x100,
        size: 0x20,
    };
    let mut sections: Vec<HexSection> = Vec::new();
    state.push_section(&mut sections);
    assert_eq!(
        sections,
        vec![HexSection {
            address: 0x100,
            size: 0x20
        }]
    );
    assert_eq!(state.size, 0);
    assert_eq!(state.address, 0x100);
}

#[test]
fn switch_extended_keeps_a_contiguous_section_open() {
    let mut state = HexState {
        extended: 0,
        address: 0xFFF0,
        size: 0x10,
    };
    let mut sections: Vec<HexSection> = Vec::new();
    state.switch_extended(&mut sections, 0x10000);
    assert_eq!(sections.len(), 0);
    assert_eq!(state.extended, 0x10000);
    assert_eq!(state.address, 0xFFF0);
    assert_eq!(state.size, 0x10);
}

#[test]
fn switch_extended_flushes_across_a_gap() {
    let mut state = HexState {
        extended: 0,
        address: 0x100,
        size: 0x10,
    };
    let mut sections: Vec<HexSection> = Vec::new();
    state.switch_extended(&mut sections, 0x20000);
    assert_eq!(
        sections,
        vec![HexSection {
            address: 0x100,
            size: 0x10
        }]
    );
    assert_eq!(state.extended, 0x20000);
    assert_eq!(state.address, 0x20000);
    assert_eq!(state.size, 0);
}

fn data(offset: u16, len: usize) -> HexRecord {
    HexRecord::Data {
        offset,
        value: vec![0u8; len],
    }
}

#[test]
fn contiguous_data_merges_into_one_section() {
    let records = vec![data(0x100, 16), data(0x110, 16), HexRecord::EndOfFile];
    let sections = hex_sections(&records).expect("no section outgrows the address space");
    assert_eq!(
        sections,
        vec![HexSection {
            address: 0x100,
            size: 32
        }]
    );
}

#[test]
fn a_gap_starts_a_new_section() {
    let records = vec![data(0x000, 16), data(0x100, 8), HexRecord::EndOfFile];
    let sections = hex_sections(&records).unwrap();
    assert_eq!(
        sections,
        vec![
            HexSection {
                address: 0x000,
                size: 16
            },
            HexSection {
                address: 0x100,
                size: 8
            },
        ]
    );
}

#[test]
fn extended_linear_address_offsets_later_data() {
    let records = vec![
        HexRecord::ExtendedLinearAddress { segment: 0x0001 },
        data(0x0000, 16),
        HexRecord::EndOfFile,
    ];
    let sections = hex_sections(&records).unwrap();
    assert_eq!(
        sections,
        vec![HexSection {
            address: 0x10000,
            size: 16
        }]
    );
}

#[test]
fn ignored_records_change_nothing() {
    let records = vec![data(0, 4), HexRecord::Other, data(4, 4), HexRecord::EndOfFile];
    let sections = hex_sections(&records).unwrap();
    assert_eq!(sections, vec![HexSection { address: 0, size: 8 }]);
}

#[test]
fn read_hex_parses_a_real_image() {
    let content = ":10010000214601360121470136007EFE09D2190140\n\
                   :100110002146017E17C20001FF5F16002148011928\n\
                   :00000001FF\n";
    let sections = read_hex(content).expect("a well-formed image");
    assert_eq!(
        sections,
        vec![HexSection {
            address: 0x0100,
            size: 0x20
        }]
    );
}

#[test]
fn read_hex_of_empty_text_reports_no_sections() {
    let sections = read_hex("").unwrap();
    assert_eq!(sections.len(), 0);
}
