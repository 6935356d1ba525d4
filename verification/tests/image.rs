use flasher_core::image::{
    build_payload, inspect_header, CrystalFrequency, ElfClass, ElfFault, FlashFrequency, FlashGeometry, FlashMode,
    FlashSize, ImageError, HEADER_LEN_32, HEADER_LEN_64, IDENT_LEN,
};

fn elf(class: u8, len: usize) -> Vec<u8> {
    let mut bytes = vec![0u8; len];
    let ident = [0x7f, b'E', b'L', b'F', class, 1, 1];
    for (i, b) in ident.iter().enumerate() {
        if i < len {
            bytes[i] = *b;
        }
    }
    bytes
}

fn reference(bytes: &[u8]) -> Result<(), String> {
    xmas_elf::ElfFile::new(bytes).map(|_| ()).map_err(|e| e.to_string())
}

#[test]
fn header_lengths_have_their_values() {
    assert_eq!(IDENT_LEN, 16);
    assert_eq!(HEADER_LEN_32, 52);
    assert_eq!(HEADER_LEN_64, 64);
}

#[test]
fn complete_headers_are_accepted() {
    assert_eq!(inspect_header(&elf(1, 52)), Ok(ElfClass::Elf32));
    assert_eq!(inspect_header(&elf(1, 1024)), Ok(ElfClass::Elf32));
    assert_eq!(inspect_header(&elf(2, 64)), Ok(ElfClass::Elf64));
    assert_eq!(inspect_header(&elf(2, 4096)), Ok(ElfClass::Elf64));
}

#[test]
fn short_identification_is_refused() {
    assert_eq!(inspect_header(&[]), Err(ElfFault::ShortIdent));
    assert_eq!(inspect_header(&elf(1, 15)), Err(ElfFault::ShortIdent));
}

#[test]
fn wrong_magic_is_refused() {
    let mut bytes = elf(1, 64);
    bytes[0] = 0x7e;
    assert_eq!(inspect_header(&bytes), Err(ElfFault::BadMagic));
    assert_eq!(inspect_header(&[b'P', b'K', 3, 4, 0, 0, 0, 0, 0, 0, 0, 0, 0, 0, 0, 0]), Err(ElfFault::BadMagic));
    let mut last = elf(1, 64);
    last[3] = b'G';
    assert_eq!(inspect_header(&last), Err(ElfFault::BadMagic));
}

#[test]
fn unknown_class_is_refused() {
    assert_eq!(inspect_header(&elf(0, 64)), Err(ElfFault::BadClass));
    assert_eq!(inspect_header(&elf(3, 64)), Err(ElfFault::BadClass));
    assert_eq!(inspect_header(&elf(0, 16)), Err(ElfFault::BadClass));
}

#[test]
fn truncated_header_is_refused() {
    assert_eq!(inspect_header(&elf(1, 16)), Err(ElfFault::ShortHeader));
    assert_eq!(inspect_header(&elf(1, 51)), Err(ElfFault::ShortHeader));
    assert_eq!(inspect_header(&elf(2, 52)), Err(ElfFault::ShortHeader));
    assert_eq!(inspect_header(&elf(2, 63)), Err(ElfFault::ShortHeader));
}

#[test]
fn verdict_and_message_agree_with_the_elf_parser() {
    let mut samples: Vec<Vec<u8>> = Vec::new();
    for class in 0u8..4 {
        for len in [0usize, 3, 15, 16, 17, 51, 52, 53, 63, 64, 65, 1024] {
            samples.push(elf(class, len));
        }
    }
    let mut broken = elf(1, 64);
    broken[1] = b'e';
    samples.push(broken);
    samples.push(vec![0xff; 64]);
    for bytes in samples {
        let ours = inspect_header(&bytes).map(|_| ()).map_err(|fault| fault.message());
        assert_eq!(ours, reference(&bytes));
    }
}

#[test]
fn fault_messages_are_fixed() {
    assert_eq!(ElfFault::ShortIdent.message(), "File is shorter than the first ELF header part");
    assert_eq!(ElfFault::BadMagic.message(), "Did not find ELF magic number");
    assert_eq!(ElfFault::BadClass.message(), "Invalid ELF class");
    assert_eq!(ElfFault::ShortHeader.message(), "File is shorter than ELF headers");
}

#[test]
fn image_error_messages() {
    assert_eq!(ImageError::Malformed(ElfFault::BadMagic).message(), "Did not find ELF magic number");
    assert_eq!(ImageError::Unreadable("No such file".to_string()).message(), "No such file");
}

#[test]
fn standard_geometry_is_dio_80mhz_4mb() {
    let geometry = FlashGeometry::standard();
    assert_eq!(geometry.mode, Some(FlashMode::Dio));
    assert_eq!(geometry.frequency, Some(FlashFrequency::Mhz80));
    assert_eq!(geometry.size, Some(FlashSize::Mb4));
}

#[test]
fn payload_holds_what_it_was_built_from() {
    let bytes = elf(1, 1024);
    let geometry = FlashGeometry { mode: Some(FlashMode::Qio), frequency: None, size: Some(FlashSize::Mb16) };
    let payload = build_payload(bytes.clone(), geometry, CrystalFrequency::Mhz26).unwrap();
    assert_eq!(payload.image(), &bytes);
    assert_eq!(payload.class(), ElfClass::Elf32);
    assert_eq!(payload.geometry(), geometry);
    assert_eq!(payload.crystal(), CrystalFrequency::Mhz26);
}

#[test]
fn payload_is_refused_for_a_malformed_image() {
    let r = build_payload(vec![1, 2, 3], FlashGeometry::standard(), CrystalFrequency::Mhz40);
    assert_eq!(r, Err(ImageError::Malformed(ElfFault::ShortIdent)));
    let r = build_payload(elf(9, 128), FlashGeometry::standard(), CrystalFrequency::Mhz40);
    assert_eq!(r, Err(ImageError::Malformed(ElfFault::BadClass)));
}
