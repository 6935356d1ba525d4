//! Firmware images and flash payloads: the ELF header check, the flash
//! geometry and the descriptor that a transfer consumes.

use vstd::prelude::*;

verus! {

/// The word size that an ELF image declares.
#[derive(Debug, Clone, Copy, PartialEq, Eq, Structural)]
pub enum ElfClass {
    Elf32,
    Elf64,
}

/// Why a byte stream is no ELF image.
#[derive(Debug, Clone, Copy, PartialEq, Eq, Structural)]
pub enum ElfFault {
    /// Fewer than the 16 identification bytes.
    ShortIdent,
    /// The first four bytes are not `0x7f 'E' 'L' 'F'`.
    BadMagic,
    /// The class byte is neither 1 (32 bit) nor 2 (64 bit).
    BadClass,
    /// The identification is there, the rest of the header is not.
    ShortHeader,
}

/// Length of the identification part of an ELF header.
pub const IDENT_LEN: usize = 16;

/// Length of a whole 32-bit ELF header.
pub const HEADER_LEN_32: usize = 52;

/// Length of a whole 64-bit ELF header.
pub const HEADER_LEN_64: usize = 64;

/// Whether a byte stream starts with a complete ELF header, and of which
/// class: the identification must be present and carry the magic number and a
/// known class, and the header of that class must fit.
pub open spec fn header_verdict(bytes: Seq<u8>) -> Result<ElfClass, ElfFault> {
    if bytes.len() < IDENT_LEN {
        Err(ElfFault::ShortIdent)
    } else if !(bytes[0] == 0x7f && bytes[1] == 0x45 && bytes[2] == 0x4c && bytes[3] == 0x46) {
        Err(ElfFault::BadMagic)
    } else if bytes[4] == 1 {
        if bytes.len() < HEADER_LEN_32 {
            Err(ElfFault::ShortHeader)
        } else {
            Ok(ElfClass::Elf32)
        }
    } else if bytes[4] == 2 {
        if bytes.len() < HEADER_LEN_64 {
            Err(ElfFault::ShortHeader)
        } else {
            Ok(ElfClass::Elf64)
        }
    } else {
        Err(ElfFault::BadClass)
    }
}

/// Checks the ELF header of a byte stream.
pub fn inspect_header(bytes: &[u8]) -> (r: Result<ElfClass, ElfFault>)
    ensures
        r == header_verdict(bytes@),
{
    if bytes.len() < IDENT_LEN {
        return Err(ElfFault::ShortIdent);
    }
    if bytes[0] != 0x7f || bytes[1] != 0x45 || bytes[2] != 0x4c || bytes[3] != 0x46 {
        return Err(ElfFault::BadMagic);
    }
    let needed: usize = if bytes[4] == 1 {
        HEADER_LEN_32
    } else if bytes[4] == 2 {
        HEADER_LEN_64
    } else {
        return Err(ElfFault::BadClass);
    };
    if bytes.len() < needed {
        Err(ElfFault::ShortHeader)
    } else if bytes[4] == 1 {
        Ok(ElfClass::Elf32)
    } else {
        Ok(ElfClass::Elf64)
    }
}

/// The message for each fault of an ELF header.
pub open spec fn fault_message(fault: ElfFault) -> Seq<char> {
    match fault {
        ElfFault::ShortIdent => "File is shorter than the first ELF header part"@,
        ElfFault::BadMagic => "Did not find ELF magic number"@,
        ElfFault::BadClass => "Invalid ELF class"@,
        ElfFault::ShortHeader => "File is shorter than ELF headers"@,
    }
}

impl ElfFault {
    /// The message for this fault.
    pub fn message(&self) -> (text: String)
        ensures
            text@ == fault_message(*self),
    {
        match self {
            ElfFault::ShortIdent => String::from_str("File is shorter than the first ELF header part"),
            ElfFault::BadMagic => String::from_str("Did not find ELF magic number"),
            ElfFault::BadClass => String::from_str("Invalid ELF class"),
            ElfFault::ShortHeader => String::from_str("File is shorter than ELF headers"),
        }
    }
}

/// How the data lines of the flash chip are driven.
#[derive(Debug, Clone, Copy, PartialEq, Eq, Structural)]
pub enum FlashMode {
    /// Quad I/O: four pins for address and data.
    Qio,
    /// Quad output: four pins for data.
    Qout,
    /// Dual I/O: two pins for address and data.
    Dio,
    /// Dual output: two pins for data.
    Dout,
}

/// The clock of the flash chip.
#[derive(Debug, Clone, Copy, PartialEq, Eq, Structural)]
pub enum FlashFrequency {
    Mhz12,
    Mhz15,
    Mhz16,
    Mhz20,
    Mhz24,
    Mhz26,
    Mhz30,
    Mhz40,
    Mhz48,
    Mhz60,
    Mhz80,
}

/// The capacity of the flash chip.
#[derive(Debug, Clone, Copy, PartialEq, Eq, Structural)]
pub enum FlashSize {
    Kb256,
    Kb512,
    Mb1,
    Mb2,
    Mb4,
    Mb8,
    Mb16,
    Mb32,
    Mb64,
    Mb128,
    Mb256,
}

/// The frequency of the device's crystal oscillator.
#[derive(Debug, Clone, Copy, PartialEq, Eq, Structural)]
pub enum CrystalFrequency {
    Mhz26,
    Mhz32,
    Mhz40,
}

/// How the target's flash memory is addressed. A field that is `None` is left
/// to the device's default.
#[derive(Debug, Clone, Copy, PartialEq, Eq, Structural)]
pub struct FlashGeometry {
    pub mode: Option<FlashMode>,
    pub frequency: Option<FlashFrequency>,
    pub size: Option<FlashSize>,
}

impl FlashGeometry {
    /// The geometry used unless the caller chooses another: dual I/O, 80 MHz,
    /// 4 MB, all three set explicitly.
    pub open spec fn standard_spec() -> FlashGeometry {
        FlashGeometry {
            mode: Some(FlashMode::Dio),
            frequency: Some(FlashFrequency::Mhz80),
            size: Some(FlashSize::Mb4),
        }
    }

    /// The geometry used unless the caller chooses another.
    pub fn standard() -> (g: FlashGeometry)
        ensures
            g == Self::standard_spec(),
    {
        FlashGeometry {
            mode: Some(FlashMode::Dio),
            frequency: Some(FlashFrequency::Mhz80),
            size: Some(FlashSize::Mb4),
        }
    }
}

/// Why no payload could be built.
#[derive(Debug, PartialEq, Eq)]
pub enum ImageError {
    /// The firmware file could not be read from the extracted package; the
    /// text says why.
    Unreadable(String),
    /// The firmware file is no ELF image.
    Malformed(ElfFault),
}

/// The message of an image error.
pub open spec fn image_error_message(error: ImageError) -> Seq<char> {
    match error {
        ImageError::Unreadable(reason) => reason@,
        ImageError::Malformed(fault) => fault_message(fault),
    }
}

impl ImageError {
    /// The message of this error.
    pub fn message(&self) -> (text: String)
        ensures
            text@ == image_error_message(*self),
    {
        match self {
            ImageError::Unreadable(reason) => reason.clone(),
            ImageError::Malformed(fault) => fault.message(),
        }
    }
}

/// Everything a transfer needs: the firmware image, whose ELF header has been
/// checked, the flash geometry and the crystal frequency of the connected
/// device. Built by `build_payload` and read-only afterwards.
#[derive(Debug, PartialEq, Eq)]
pub struct FlashDataDescriptor {
    image: Vec<u8>,
    class: ElfClass,
    geometry: FlashGeometry,
    crystal: CrystalFrequency,
}

impl FlashDataDescriptor {
    #[verifier::type_invariant]
    spec fn header_checked(self) -> bool {
        header_verdict(self.image@) == Ok::<ElfClass, ElfFault>(self.class)
    }

    /// The bytes of the firmware image.
    pub closed spec fn image_bytes(self) -> Seq<u8> {
        self.image@
    }

    /// The class of the firmware image.
    pub closed spec fn image_class(self) -> ElfClass {
        self.class
    }

    /// The flash geometry.
    pub closed spec fn flash_geometry(self) -> FlashGeometry {
        self.geometry
    }

    /// The crystal frequency of the device.
    pub closed spec fn crystal_frequency(self) -> CrystalFrequency {
        self.crystal
    }

    /// The bytes of the firmware image, which start with a complete ELF
    /// header of the image's class.
    pub fn image(&self) -> (bytes: &Vec<u8>)
        ensures
            bytes@ == self.image_bytes(),
            header_verdict(bytes@) == Ok::<ElfClass, ElfFault>(self.image_class()),
    {
        proof {
            use_type_invariant(self);
        }
        &self.image
    }

    /// The class of the firmware image.
    pub fn class(&self) -> (class: ElfClass)
        ensures
            class == self.image_class(),
    {
        self.class
    }

    /// The flash geometry.
    pub fn geometry(&self) -> (geometry: FlashGeometry)
        ensures
            geometry == self.flash_geometry(),
    {
        self.geometry
    }

    /// The crystal frequency of the device.
    pub fn crystal(&self) -> (crystal: CrystalFrequency)
        ensures
            crystal == self.crystal_frequency(),
    {
        self.crystal
    }
}

/// Builds the payload for one transfer from the bytes of the firmware file,
/// the flash geometry and the crystal frequency that the connected device
/// reported. Succeeds exactly when the bytes start with a complete ELF header;
/// the payload then holds the bytes unchanged, and the geometry and the
/// frequency as given. It names no bootloader and no partition table: the
/// transfer uses the device service's own.
pub fn build_payload(elf: Vec<u8>, geometry: FlashGeometry, crystal: CrystalFrequency) -> (r: Result<FlashDataDescriptor, ImageError>)
    ensures
        match header_verdict(elf@) {
            Ok(class) => r matches Ok(payload) && payload.image_bytes() == elf@ && payload.image_class() == class
                && payload.flash_geometry() == geometry && payload.crystal_frequency() == crystal,
            Err(fault) => r == Err::<FlashDataDescriptor, ImageError>(ImageError::Malformed(fault)),
        },
{
    match inspect_header(elf.as_slice()) {
        Ok(class) => Ok(FlashDataDescriptor { image: elf, class, geometry, crystal }),
        Err(fault) => Err(ImageError::Malformed(fault)),
    }
}

} // verus!
