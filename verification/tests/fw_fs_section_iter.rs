use mu_pi::base::Status;
use mu_pi::fw_fs::ffs::section::Type as FfsSectionType;
use mu_pi::fw_fs::section_iter::{expand_extracted, MAX_EXTRACTION_DEPTH};
use mu_pi::fw_fs::{FileSectionIterator, NullSectionExtractor, Section, SectionExtractor, SectionMetaData};

fn section_bytes(section_type: u8, body: &[u8]) -> Vec<u8> {
    let size = 4 + body.len();
    let mut bytes = vec![size as u8, (size >> 8) as u8, (size >> 16) as u8, section_type];
    bytes.extend_from_slice(body);
    bytes
}

fn guid_defined_section(data: &[u8]) -> Vec<u8> {
    let mut body = vec![0x11u8; 16];
    body.extend_from_slice(&24u16.to_le_bytes());
    body.extend_from_slice(&1u16.to_le_bytes());
    body.extend_from_slice(data);
    section_bytes(0x02, &body)
}

// Joins sections, each at the next offset that is a multiple of 4.
fn join_sections(sections: &[Vec<u8>], pad: u8) -> Vec<u8> {
    let mut bytes = Vec::new();
    for section in sections {
        while bytes.len() % 4 != 0 {
            bytes.push(pad);
        }
        bytes.extend_from_slice(section);
    }
    bytes
}

fn collect<E: SectionExtractor>(mut iter: FileSectionIterator<E>) -> Vec<Result<Section, Status>> {
    let mut items = Vec::new();
    while let Some(item) = iter.next() {
        items.push(item);
        assert!(items.len() < 1000, "the iteration does not end");
    }
    // an iterator that has ended stays ended
    assert!(iter.next().is_none());
    assert!(iter.next().is_none());
    items
}

// Returns the data of the section as its expansion.
struct DataExtractor {}

impl SectionExtractor for DataExtractor {
    fn extract(&self, section: &Section) -> Result<Vec<u8>, Status> {
        Ok(section.section_data().to_vec())
    }
}

// Fails every extraction.
struct FailingExtractor {
    status: Status,
}

impl SectionExtractor for FailingExtractor {
    fn extract(&self, _section: &Section) -> Result<Vec<u8>, Status> {
        Err(self.status)
    }
}

// Returns two raw sections without data, back to back.
struct TwoRawSections {}

impl SectionExtractor for TwoRawSections {
    fn extract(&self, section: &Section) -> Result<Vec<u8>, Status> {
        assert!(matches!(section.meta_data(), SectionMetaData::GuidDefined(_, _)));
        Ok(vec![4, 0, 0, 0x19, 4, 0, 0, 0x19])
    }
}

#[test]
fn empty_buffer_has_no_sections() {
    let extractor = NullSectionExtractor {};
    assert!(collect(FileSectionIterator::new(&[], &extractor)).is_empty());
    assert!(collect(FileSectionIterator::new(&[4, 0, 0], &extractor)).is_empty());
}

#[test]
fn sections_follow_each_other_at_multiples_of_four() {
    let bytes = join_sections(
        &[section_bytes(0x19, &[1]), section_bytes(0x15, &[2, 3, 4]), section_bytes(0x10, &[]), section_bytes(0x13, &[5, 6])],
        0xFF,
    );
    assert_eq!(bytes.len(), 8 + 8 + 4 + 6);
    let extractor = NullSectionExtractor {};
    let items = collect(FileSectionIterator::new(&bytes, &extractor));
    assert_eq!(items.len(), 4);
    let sections: Vec<Section> = items.into_iter().map(|item| item.unwrap()).collect();
    assert_eq!(sections[0].section_type(), Some(FfsSectionType::Raw));
    assert_eq!(sections[0].section_size(), 5);
    assert_eq!(sections[0].section_data(), &[1]);
    assert_eq!(sections[1].section_type(), Some(FfsSectionType::UserInterface));
    assert_eq!(sections[1].section_size(), 7);
    assert_eq!(sections[1].section_data(), &[2, 3, 4]);
    assert_eq!(sections[2].section_type(), Some(FfsSectionType::Pe32));
    assert_eq!(sections[2].section_size(), 4);
    assert_eq!(sections[3].section_type(), Some(FfsSectionType::DxeDepex));
    assert_eq!(sections[3].section_data(), &[5, 6]);
}

#[test]
fn padding_is_not_taken_for_a_section() {
    // the second section starts at offset 8, not at offset 5
    let mut bytes = section_bytes(0x19, &[1]);
    bytes.extend_from_slice(&[4, 0, 0]);
    bytes.extend_from_slice(&section_bytes(0x10, &[7, 7]));
    let extractor = NullSectionExtractor {};
    let items = collect(FileSectionIterator::new(&bytes, &extractor));
    assert_eq!(items.len(), 2);
    assert_eq!(items[1].as_ref().unwrap().section_type(), Some(FfsSectionType::Pe32));
    assert_eq!(items[1].as_ref().unwrap().section_data(), &[7, 7]);
}

#[test]
fn iteration_ends_where_less_than_a_header_is_left() {
    let mut bytes = section_bytes(0x19, &[1, 2, 3, 4]);
    bytes.extend_from_slice(&[5, 0, 0]);
    let extractor = NullSectionExtractor {};
    let items = collect(FileSectionIterator::new(&bytes, &extractor));
    assert_eq!(items.len(), 1);
    assert!(items[0].is_ok());
}

#[test]
fn section_error_is_yielded_once_and_ends_the_iteration() {
    // the second section declares a size beyond the buffer; a third section would follow
    let mut bytes = join_sections(&[section_bytes(0x19, &[1, 2, 3, 4])], 0);
    bytes.extend_from_slice(&[0x40, 0, 0, 0x19]);
    bytes.extend_from_slice(&section_bytes(0x19, &[9]));
    let extractor = NullSectionExtractor {};
    let mut iter = FileSectionIterator::new(&bytes, &extractor);
    assert!(iter.next().unwrap().is_ok());
    assert_eq!(iter.next().unwrap().unwrap_err(), Status::VolumeCorrupted);
    assert!(iter.next().is_none());
    assert!(iter.next().is_none());
}

#[test]
fn null_extractor_expands_nothing() {
    let bytes = join_sections(
        &[guid_defined_section(&[4, 0, 0, 0x19]), section_bytes(0x01, &[0, 0, 0, 0, 0, 4, 0, 0, 0x19]), section_bytes(0x19, &[])],
        0,
    );
    let extractor = NullSectionExtractor {};
    let items = collect(FileSectionIterator::new(&bytes, &extractor));
    assert_eq!(items.len(), 3);
    assert_eq!(items[0].as_ref().unwrap().section_type(), Some(FfsSectionType::GuidDefined));
    assert_eq!(items[1].as_ref().unwrap().section_type(), Some(FfsSectionType::Compression));
    assert_eq!(items[2].as_ref().unwrap().section_type(), Some(FfsSectionType::Raw));
}

#[test]
fn extracted_sections_follow_their_encapsulation_section() {
    let bytes = join_sections(&[guid_defined_section(&[0xDE, 0xAD]), section_bytes(0x15, &[b'a', 0])], 0);
    let extractor = TwoRawSections {};
    let items = collect(FileSectionIterator::new(&bytes, &extractor));
    assert_eq!(items.len(), 4);
    let sections: Vec<Section> = items.into_iter().map(|item| item.unwrap()).collect();
    // the encapsulation section itself, then the two sections of its expansion in their order
    assert_eq!(sections[0].section_type(), Some(FfsSectionType::GuidDefined));
    assert_eq!(sections[0].section_data(), &[0xDE, 0xAD]);
    assert_eq!(sections[1].section_type(), Some(FfsSectionType::Raw));
    assert_eq!(sections[1].section_size(), 4);
    assert!(sections[1].section_data().is_empty());
    assert_eq!(sections[2].section_type(), Some(FfsSectionType::Raw));
    assert_eq!(sections[2].section_size(), 4);
    assert!(sections[2].section_data().is_empty());
    // and then the section behind the encapsulation section
    assert_eq!(sections[3].section_type(), Some(FfsSectionType::UserInterface));
}

#[test]
fn guid_defined_section_expands_to_two_raw_sections() {
    let bytes = guid_defined_section(&[1, 2, 3]);
    let extractor = TwoRawSections {};
    let mut iter = FileSectionIterator::new(&bytes, &extractor);
    let first = iter.next().unwrap().unwrap();
    assert_eq!(first.section_type(), Some(FfsSectionType::GuidDefined));
    // what the extraction yields is the two raw sections, and the encapsulation section is
    // not among them again
    let expanded: Vec<Section> = vec![iter.next().unwrap().unwrap(), iter.next().unwrap().unwrap()];
    for section in &expanded {
        assert_eq!(section.section_type(), Some(FfsSectionType::Raw));
        assert_eq!(section.section_type_raw(), 0x19);
        assert_eq!(section.section_size(), 4);
        assert!(section.section_data().is_empty());
        assert!(matches!(section.meta_data(), SectionMetaData::Absent));
    }
    assert!(iter.next().is_none());
    assert!(iter.next().is_none());
}

#[test]
fn failed_extraction_surfaces_behind_the_encapsulation_section() {
    let bytes = join_sections(&[guid_defined_section(&[1]), section_bytes(0x19, &[2])], 0);
    let extractor = FailingExtractor { status: Status::AccessDenied };
    let mut iter = FileSectionIterator::new(&bytes, &extractor);
    assert_eq!(iter.next().unwrap().unwrap().section_type(), Some(FfsSectionType::GuidDefined));
    // the status of the extractor, unchanged
    assert_eq!(iter.next().unwrap().unwrap_err(), Status::AccessDenied);
    // and nothing after it, not even the section that follows in the buffer
    assert!(iter.next().is_none());
    assert!(iter.next().is_none());
}

#[test]
fn extractor_is_not_asked_about_leaf_sections() {
    let bytes = join_sections(&[section_bytes(0x19, &[1]), section_bytes(0x03, &[2]), section_bytes(0x17, &[3])], 0);
    let extractor = FailingExtractor { status: Status::DeviceError };
    let items = collect(FileSectionIterator::new(&bytes, &extractor));
    assert_eq!(items.len(), 3);
    assert!(items.iter().all(|item| item.is_ok()));
}

#[test]
fn nested_encapsulations_are_flattened() {
    let inner = join_sections(&[section_bytes(0x19, &[1]), section_bytes(0x10, &[2, 3])], 0);
    let middle = join_sections(&[guid_defined_section(&inner), section_bytes(0x15, &[4])], 0);
    let outer = join_sections(&[section_bytes(0x13, &[5]), guid_defined_section(&middle), section_bytes(0x1B, &[6])], 0);
    let extractor = DataExtractor {};
    let items = collect(FileSectionIterator::new(&outer, &extractor));
    let types: Vec<u8> = items.iter().map(|item| item.as_ref().unwrap().section_type_raw()).collect();
    assert_eq!(types, vec![0x13, 0x02, 0x02, 0x19, 0x10, 0x15, 0x1B]);
    assert_eq!(items[3].as_ref().unwrap().section_data(), &[1]);
    assert_eq!(items[4].as_ref().unwrap().section_data(), &[2, 3]);
}

#[test]
fn error_in_an_expansion_ends_the_iteration() {
    // the expansion holds a section that parses and one that does not
    let mut inner = join_sections(&[section_bytes(0x19, &[1])], 0);
    inner.extend_from_slice(&[0, 0, 0]);
    inner.extend_from_slice(&[2, 0, 0, 0x19]);
    let outer = join_sections(&[guid_defined_section(&inner), section_bytes(0x19, &[9])], 0);
    let extractor = DataExtractor {};
    let mut iter = FileSectionIterator::new(&outer, &extractor);
    assert_eq!(iter.next().unwrap().unwrap().section_type_raw(), 0x02);
    assert_eq!(iter.next().unwrap().unwrap().section_type_raw(), 0x19);
    assert_eq!(iter.next().unwrap().unwrap_err(), Status::VolumeCorrupted);
    assert!(iter.next().is_none());
    assert!(iter.next().is_none());
}

#[test]
fn expansions_are_limited_in_depth() {
    let level3 = section_bytes(0x19, &[3]);
    let level2 = guid_defined_section(&level3);
    let level1 = guid_defined_section(&level2);
    let extractor = DataExtractor {};

    // two nested expansions are needed
    let items = collect(FileSectionIterator::with_max_depth(&level1, &extractor, 2));
    let types: Vec<u8> = items.iter().map(|item| item.as_ref().unwrap().section_type_raw()).collect();
    assert_eq!(types, vec![0x02, 0x02, 0x19]);

    // with one allowed, the second is refused
    let items = collect(FileSectionIterator::with_max_depth(&level1, &extractor, 1));
    assert_eq!(items.len(), 3);
    assert_eq!(items[0].as_ref().unwrap().section_type_raw(), 0x02);
    assert_eq!(items[1].as_ref().unwrap().section_type_raw(), 0x02);
    assert_eq!(*items[2].as_ref().unwrap_err(), Status::VolumeCorrupted);

    // with none allowed, the first is refused
    let items = collect(FileSectionIterator::with_max_depth(&level1, &extractor, 0));
    assert_eq!(items.len(), 2);
    assert_eq!(items[0].as_ref().unwrap().section_type_raw(), 0x02);
    assert_eq!(*items[1].as_ref().unwrap_err(), Status::VolumeCorrupted);

    // an empty expansion needs no depth
    let empty = guid_defined_section(&[]);
    let items = collect(FileSectionIterator::with_max_depth(&empty, &extractor, 0));
    assert_eq!(items.len(), 1);
    assert!(items[0].is_ok());
}

#[test]
fn default_depth_allows_sixteen_nested_expansions() {
    let extractor = DataExtractor {};
    let mut nested = section_bytes(0x19, &[0x42]);
    for _ in 0..16 {
        nested = guid_defined_section(&nested);
    }
    let items = collect(FileSectionIterator::new(&nested, &extractor));
    assert_eq!(items.len(), 17);
    assert!(items.iter().all(|item| item.is_ok()));
    assert_eq!(items[16].as_ref().unwrap().section_data(), &[0x42]);

    let deeper = guid_defined_section(&nested);
    let items = collect(FileSectionIterator::new(&deeper, &extractor));
    assert_eq!(items.len(), 18);
    assert!(items[..17].iter().all(|item| item.is_ok()));
    assert_eq!(*items[17].as_ref().unwrap_err(), Status::VolumeCorrupted);
}

#[test]
fn extracted_buffer_expands_to_its_sections() {
    let section = Section::new(&guid_defined_section(&[1, 2, 3])).unwrap();
    let extractor = TwoRawSections {};
    // the expansion of the extracted buffer is the two raw sections, and nothing else
    let items = expand_extracted(extractor.extract(&section), &extractor, MAX_EXTRACTION_DEPTH);
    assert_eq!(items.len(), 2);
    for item in items.iter() {
        let section = item.as_ref().unwrap();
        assert_eq!(section.section_type(), Some(FfsSectionType::Raw));
        assert_eq!(section.section_size(), 4);
        assert!(section.section_data().is_empty());
    }
    // a failed extraction expands to its error
    let items = expand_extracted(Err(Status::Timeout), &extractor, MAX_EXTRACTION_DEPTH);
    assert_eq!(items.len(), 1);
    assert_eq!(*items[0].as_ref().unwrap_err(), Status::Timeout);
    // an empty buffer expands to nothing, with or without depth
    assert!(expand_extracted(Ok(vec![]), &extractor, MAX_EXTRACTION_DEPTH).is_empty());
    assert!(expand_extracted(Ok(vec![]), &extractor, 0).is_empty());
    // any other buffer needs depth
    let items = expand_extracted(Ok(vec![4, 0, 0, 0x19]), &extractor, 0);
    assert_eq!(items.len(), 1);
    assert_eq!(*items[0].as_ref().unwrap_err(), Status::VolumeCorrupted);
    let items = expand_extracted(Ok(vec![4, 0, 0, 0x19]), &extractor, 1);
    assert_eq!(items.len(), 1);
    assert!(items[0].is_ok());
    assert_eq!(MAX_EXTRACTION_DEPTH, 16);
}
