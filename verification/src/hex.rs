//! Grouping a firmware image's records into contiguous sections.
//!
//! A hex image is a stream of records: data at an offset, extended-address
//! switches, and an end marker. The tool reports the image as a list of
//! sections, each a contiguous address range, merging data records that
//! follow each other without a gap. Reading the file is the host's work and
//! parsing the records is the hex library's; the grouping decisions are
//! verified here, record by record, against a mathematical run of the same
//! rules. A run whose accumulated section size outgrows the address space
//! is rejected rather than wrapped.
use vstd::prelude::*;

verus! {

/// One contiguous address range of the image.
#[derive(PartialEq, Eq, Structural, Clone, Copy, Debug)]
pub struct HexSection {
    pub address: u32,
    pub size: u32,
}

/// Mathematical value of a [`HexSection`].
pub ghost struct HexSectionModel {
    pub address: int,
    pub size: int,
}

impl View for HexSection {
    type V = HexSectionModel;

    open spec fn view(&self) -> HexSectionModel {
        HexSectionModel { address: self.address as int, size: self.size as int }
    }
}

/// One record of the image, as the grouping rules see it.
#[derive(Debug)]
pub enum HexRecord {
    /// Data bytes at an offset within the current extended address.
    Data { offset: u16, value: Vec<u8> },
    /// The end marker: flush the open section.
    EndOfFile,
    /// Switch the extended address to `segment * 16`.
    ExtendedSegmentAddress { segment: u16 },
    /// Switch the extended address to `segment * 65536`.
    ExtendedLinearAddress { segment: u16 },
    /// Any other record, including one that failed to parse: ignored.
    Other,
}

/// Mathematical value of a [`HexRecord`]; data carries only its length.
pub ghost enum HexRecordModel {
    Data { offset: int, len: int },
    EndOfFile,
    ExtendedSegmentAddress { segment: int },
    ExtendedLinearAddress { segment: int },
    Other,
}

impl View for HexRecord {
    type V = HexRecordModel;

    open spec fn view(&self) -> HexRecordModel {
        match self {
            HexRecord::Data { offset, value } => HexRecordModel::Data {
                offset: *offset as int,
                len: value@.len() as int,
            },
            HexRecord::EndOfFile => HexRecordModel::EndOfFile,
            HexRecord::ExtendedSegmentAddress { segment } => HexRecordModel::ExtendedSegmentAddress {
                segment: *segment as int,
            },
            HexRecord::ExtendedLinearAddress { segment } => HexRecordModel::ExtendedLinearAddress {
                segment: *segment as int,
            },
            HexRecord::Other => HexRecordModel::Other,
        }
    }
}

/// The accumulator's state between records: the extended address in force,
/// and the open section's start address and size so far.
pub struct HexState {
    pub extended: u32,
    pub address: u32,
    pub size: u32,
}

/// Mathematical value of a [`HexState`] together with the sections flushed
/// so far.
pub ghost struct HexRunState {
    pub extended: int,
    pub address: int,
    pub size: int,
    pub sections: Seq<HexSectionModel>,
}

impl View for HexState {
    type V = HexRunState;

    open spec fn view(&self) -> HexRunState {
        HexRunState {
            extended: self.extended as int,
            address: self.address as int,
            size: self.size as int,
            sections: Seq::empty(),
        }
    }
}

/// Flushing the open section: an empty one is dropped silently, any other
/// is appended and the size reset; the addresses stay.
pub open spec fn spec_flush(st: HexRunState) -> HexRunState {
    if st.size == 0 {
        st
    } else {
        HexRunState {
            size: 0,
            sections: st.sections.push(
                HexSectionModel { address: st.address, size: st.size },
            ),
            ..st
        }
    }
}

/// Switching the extended address: when the open section runs exactly up
/// to the new extended address the section stays open across the switch;
/// otherwise it is flushed and the accumulator restarts there.
pub open spec fn spec_switch(st: HexRunState, next_extend: int) -> HexRunState {
    if st.address + st.size == next_extend {
        HexRunState { extended: next_extend, ..st }
    } else {
        let flushed = spec_flush(st);
        HexRunState { extended: next_extend, address: next_extend, ..flushed }
    }
}

/// One record's effect on the accumulator. `None` rejects a section grown
/// beyond the address space.
pub open spec fn spec_hex_step(st: HexRunState, rec: HexRecordModel) -> Option<HexRunState> {
    match rec {
        HexRecordModel::Data { offset, len } => {
            let address = st.extended + offset;
            let st1 = if st.address + st.size != address {
                HexRunState { address, ..spec_flush(st) }
            } else {
                st
            };
            if st1.size + len > u32::MAX {
                None
            } else {
                Some(HexRunState { size: st1.size + len, ..st1 })
            }
        },
        HexRecordModel::EndOfFile => Some(spec_flush(st)),
        HexRecordModel::ExtendedSegmentAddress { segment } => Some(
            spec_switch(st, segment * 16),
        ),
        HexRecordModel::ExtendedLinearAddress { segment } => Some(
            spec_switch(st, segment * 65536),
        ),
        HexRecordModel::Other => Some(st),
    }
}

/// A whole run of the accumulator over the records from index `i` on.
pub open spec fn spec_hex_run(
    records: Seq<HexRecordModel>,
    i: int,
    st: HexRunState,
) -> Option<HexRunState>
    decreases records.len() - i,
{
    if i < 0 || i >= records.len() {
        Some(st)
    } else {
        match spec_hex_step(st, records[i]) {
            None => None,
            Some(st2) => spec_hex_run(records, i + 1, st2),
        }
    }
}

/// The state every run starts from.
pub open spec fn spec_hex_init() -> HexRunState {
    HexRunState { extended: 0, address: 0, size: 0, sections: Seq::empty() }
}

/// The records an Intel-HEX text denotes: a function of the text alone.
pub uninterp spec fn ihex_records_of(content: Seq<char>) -> Seq<HexRecordModel>;

/// Relies on `ihex::Reader`: iterating it parses the text's records in
/// order, each yielded as parsed or as an error; record kinds the grouping
/// ignores, and lines that fail to parse, are kept as ignored records.
#[verifier::external_body]
fn parse_records(content: &str) -> (records: Vec<HexRecord>)
    ensures
        records@.map_values(|r: HexRecord| r@) == ihex_records_of(content@),
{
    ihex::Reader::new(content)
        .map(|record| match record {
            Ok(ihex::Record::Data { offset, value }) => HexRecord::Data { offset, value },
            Ok(ihex::Record::EndOfFile) => HexRecord::EndOfFile,
            Ok(ihex::Record::ExtendedSegmentAddress(segment)) => {
                HexRecord::ExtendedSegmentAddress { segment }
            },
            Ok(ihex::Record::ExtendedLinearAddress(segment)) => {
                HexRecord::ExtendedLinearAddress { segment }
            },
            _ => HexRecord::Other,
        })
        .collect()
}

/// Parse a hex image's text and group it into contiguous sections: the
/// mathematical run of the grouping rules over the text's records, with
/// `None` for an image whose open section outgrows the address space.
/// Reading the file into `content` is the host's work.
pub fn read_hex(content: &str) -> (result: Option<Vec<HexSection>>)
    ensures
        ({
            let run = spec_hex_run(ihex_records_of(content@), 0, spec_hex_init());
            match result {
                Some(sections) => run matches Some(st) && sections@.map_values(
                    |s: HexSection| s@,
                ) == st.sections,
                None => run is None,
            }
        }),
{
    let records = parse_records(content);
    hex_sections(&records)
}

impl HexState {
    /// Flush the open section into `sections`, exactly as the rule says.
    pub fn push_section(&mut self, sections: &mut Vec<HexSection>)
        ensures
            final(self).extended == old(self).extended,
            final(self).address == old(self).address,
            final(self).size == 0,
            old(self).size == 0 ==> final(sections)@ == old(sections)@,
            old(self).size != 0 ==> final(sections)@ == old(sections)@.push(
                HexSection { address: old(self).address, size: old(self).size },
            ),
    {
        if self.size == 0 {
            return;
        }
        sections.push(HexSection { address: self.address, size: self.size });
        self.size = 0;
    }

    /// Switch the extended address, keeping the open section exactly when
    /// it runs up to the new extended address. The contiguity test is
    /// performed at full width, so it cannot wrap.
    pub fn switch_extended(&mut self, sections: &mut Vec<HexSection>, next_extend: u32)
        ensures
            ({
                let stepped = spec_switch(
                    HexRunState {
                        extended: old(self).extended as int,
                        address: old(self).address as int,
                        size: old(self).size as int,
                        sections: old(sections)@.map_values(|s: HexSection| s@),
                    },
                    next_extend as int,
                );
                &&& final(self).extended == stepped.extended
                &&& final(self).address == stepped.address
                &&& final(self).size == stepped.size
                &&& final(sections)@.map_values(|s: HexSection| s@) == stepped.sections
            }),
    {
        let ghost before = old(sections)@.map_values(|s: HexSection| s@);
        let contiguous = (self.address as u64) + (self.size as u64) == (next_extend as u64);
        if contiguous {
            self.extended = next_extend;
        } else {
            self.push_section(sections);
            self.extended = next_extend;
            self.address = next_extend;
        }
        proof {
            if !contiguous && old(self).size != 0 {
                assert(sections@.map_values(|s: HexSection| s@) =~= before.push(
                    HexSectionModel {
                        address: old(self).address as int,
                        size: old(self).size as int,
                    },
                ));
            } else {
                assert(sections@.map_values(|s: HexSection| s@) =~= before);
            }
        }
    }
}

/// Group a record stream into its contiguous sections, from a fresh
/// accumulator: exactly the mathematical run, with `None` for an image
/// whose open section outgrows the address space.
pub fn hex_sections(records: &Vec<HexRecord>) -> (result: Option<Vec<HexSection>>)
    ensures
        ({
            let run = spec_hex_run(
                records@.map_values(|r: HexRecord| r@),
                0,
                spec_hex_init(),
            );
            match result {
                Some(sections) => run matches Some(st) && sections@.map_values(
                    |s: HexSection| s@,
                ) == st.sections,
                None => run is None,
            }
        }),
{
    let ghost record_models = records@.map_values(|r: HexRecord| r@);
    let mut sections: Vec<HexSection> = Vec::new();
    let mut state = HexState { extended: 0, address: 0, size: 0 };
    let n = records.len();
    let mut i: usize = 0;
    proof {
        assert(sections@.map_values(|s: HexSection| s@) =~= Seq::<HexSectionModel>::empty());
    }
    while i < n
        invariant
            i <= n,
            n == records@.len(),
            record_models == records@.map_values(|r: HexRecord| r@),
            state.extended <= 0xFFFF0000,
            spec_hex_run(record_models, 0, spec_hex_init()) == spec_hex_run(
                record_models,
                i as int,
                HexRunState {
                    extended: state.extended as int,
                    address: state.address as int,
                    size: state.size as int,
                    sections: sections@.map_values(|s: HexSection| s@),
                },
            ),
        decreases n - i,
    {
        let ghost st_before = HexRunState {
            extended: state.extended as int,
            address: state.address as int,
            size: state.size as int,
            sections: sections@.map_values(|s: HexSection| s@),
        };
        match &records[i] {
            HexRecord::Data { offset, value } => {
                let address = state.extended + (*offset as u32);
                let contiguous = (state.address as u64) + (state.size as u64) == (address as u64);
                if !contiguous {
                    state.push_section(&mut sections);
                    state.address = address;
                }
                if value.len() > (u32::MAX - state.size) as usize {
                    proof {
                        assert(spec_hex_step(st_before, record_models[i as int]) is None);
                    }
                    return None;
                }
                state.size = state.size + (value.len() as u32);
                proof {
                    assert(sections@.map_values(|s: HexSection| s@) == (match spec_hex_step(
                        st_before,
                        record_models[i as int],
                    ) {
                        Some(st) => st.sections,
                        None => Seq::empty(),
                    }));
                }
            },
            HexRecord::EndOfFile => {
                state.push_section(&mut sections);
                proof {
                    assert(sections@.map_values(|s: HexSection| s@) == spec_flush(
                        st_before,
                    ).sections);
                }
            },
            HexRecord::ExtendedSegmentAddress { segment } => {
                state.switch_extended(&mut sections, (*segment as u32) * 16);
            },
            HexRecord::ExtendedLinearAddress { segment } => {
                state.switch_extended(&mut sections, (*segment as u32) * 65536);
            },
            HexRecord::Other => {},
        }
        i = i + 1;
    }
    Some(sections)
}

} // verus!
