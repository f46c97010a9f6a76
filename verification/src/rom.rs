// The iNES cartridge image format.
use vstd::prelude::*;
use crate::bits::bit;

verus! {

pub const PRG_ROM_BYTES_PER_CHUNK: usize = 16384;
pub const CHR_ROM_BYTES_PER_CHUNK: usize = 8192;
pub const PRG_RAM_BYTES_PER_CHUNK: usize = 8192;
pub const HEADER_SIZE: usize = 16;
pub const TRAINER_SIZE: usize = 512;

#[derive(Debug, Clone, Copy)]
pub enum TVSystem {
    NTSC,
    PAL,
    DualCompatible,
}

#[derive(Debug, Clone, Copy)]
pub enum HeaderType {
    Standard,
    Extended,
}

#[derive(Debug, Clone, Copy)]
pub enum MirroringMode {
    Horizontal,
    Vertical,
}

#[derive(Debug, Clone, Copy)]
pub struct HeaderExtension {
    pub mapper_number: u16,
    pub submapper_number: u8,
}

#[derive(Debug, Clone, Copy)]
pub struct Header {
    pub header_type: HeaderType,
    pub prg_rom_size: usize,
    pub chr_rom_size: usize,
    pub prg_ram_size: usize,
    pub mapper_number: u16,
    pub four_screen_mode: bool,
    pub trainer_present: bool,
    pub sram_present: bool,
    pub mirroring_mode: MirroringMode,
    pub is_playchoice_10: bool,
    pub is_vs_unisystem: bool,
    pub tv_system: TVSystem,
    pub extension: Option<HeaderExtension>,
}

/// A cartridge image.
pub struct Rom {
    pub header: Header,
    pub trainer_bytes: Option<Vec<u8>>,
    pub prg_rom_bytes: Vec<u8>,
    pub chr_rom_bytes: Vec<u8>,
}

/// Why an image could not be read.
#[derive(Debug, Clone, Copy)]
pub enum RomError {
    /// The image does not start with "NES" followed by 0x1A.
    InvalidSignature,
    /// The image ends before the header, the trainer, PRG ROM or CHR ROM that its header announces.
    UnexpectedEnd,
}

/// The header format that byte 7 announces: NES 2.0 when its bits 2-3 are 0b10.
pub open spec fn spec_header_type(flags_7: u8) -> HeaderType {
    if (flags_7 / 4) % 4 == 2 { HeaderType::Extended } else { HeaderType::Standard }
}

pub fn detect_header_type(flags_7: u8) -> (r: HeaderType)
    ensures
        r == spec_header_type(flags_7),
{
    proof { crate::bits::lemma_bits_2_3(flags_7); }
    if flags_7 & 0b00001100 == 0b00001000 {
        HeaderType::Extended
    } else {
        HeaderType::Standard
    }
}

/// The image starts with the iNES signature.
pub open spec fn has_signature(b: Seq<u8>) -> bool {
    b.len() >= 4 && b[0] == 0x4E && b[1] == 0x45 && b[2] == 0x53 && b[3] == 0x1A
}

/// The header that the first 16 bytes of an image describe.
pub open spec fn spec_header(b: Seq<u8>) -> Header {
    let flags_6 = b[6];
    let flags_7 = b[7];
    let byte_8 = b[8];
    let header_type = spec_header_type(flags_7);
    let extended = header_type is Extended;
    let mapper_number: u16 = if extended {
        ((byte_8 % 16) * 256 + (flags_7 / 16) * 16 + flags_6 / 16) as u16
    } else {
        ((flags_7 / 16) * 16 + flags_6 / 16) as u16
    };
    let prg_ram_chunks: u8 = if extended || byte_8 == 0 { 1 } else { byte_8 };
    let tv_byte = if extended { b[12] } else { b[9] };
    Header {
        header_type,
        prg_rom_size: (b[4] * PRG_ROM_BYTES_PER_CHUNK) as usize,
        chr_rom_size: (b[5] * CHR_ROM_BYTES_PER_CHUNK) as usize,
        prg_ram_size: (prg_ram_chunks * PRG_RAM_BYTES_PER_CHUNK) as usize,
        mapper_number,
        four_screen_mode: bit(flags_6, 3),
        trainer_present: bit(flags_6, 2),
        sram_present: bit(flags_6, 1),
        mirroring_mode: if bit(flags_6, 0) { MirroringMode::Vertical } else { MirroringMode::Horizontal },
        is_playchoice_10: bit(flags_7, 1),
        is_vs_unisystem: bit(flags_7, 0),
        tv_system: if tv_byte % 4 == 0 { TVSystem::NTSC } else if tv_byte % 4 == 2 { TVSystem::PAL } else { TVSystem::DualCompatible },
        extension: None,
    }
}

/// The trainer's length in the image.
pub open spec fn trainer_len(h: Header) -> int {
    if h.trainer_present { TRAINER_SIZE as int } else { 0 }
}

/// How long an image with header `h` must at least be.
pub open spec fn required_len(h: Header) -> int {
    HEADER_SIZE + trainer_len(h) + h.prg_rom_size + h.chr_rom_size
}

/// The PRG ROM of an image: after the header and the trainer, as long as the header says.
pub open spec fn spec_prg_rom(b: Seq<u8>) -> Seq<u8> {
    let h = spec_header(b);
    b.subrange(HEADER_SIZE + trainer_len(h), HEADER_SIZE + trainer_len(h) + h.prg_rom_size)
}

/// The CHR ROM of an image: right after PRG ROM, as long as the header says.
pub open spec fn spec_chr_rom(b: Seq<u8>) -> Seq<u8> {
    let h = spec_header(b);
    b.subrange(HEADER_SIZE + trainer_len(h) + h.prg_rom_size, required_len(h))
}

/// Parses the 16-byte header.
pub fn parse_header(input: &[u8]) -> (r: Result<Header, RomError>)
    ensures
        match r {
            Ok(h) => has_signature(input@) && input@.len() >= HEADER_SIZE && h == spec_header(input@),
            Err(e) => (!has_signature(input@) && e is InvalidSignature)
                || (has_signature(input@) && input@.len() < HEADER_SIZE && e is UnexpectedEnd),
        },
{
    if input.len() < 4 || input[0] != 0x4E || input[1] != 0x45 || input[2] != 0x53 || input[3] != 0x1A {
        return Err(RomError::InvalidSignature);
    }
    if input.len() < HEADER_SIZE {
        return Err(RomError::UnexpectedEnd);
    }
    let prg_rom_chunk_count = input[4];
    let chr_rom_chunk_count = input[5];
    let flags_6 = input[6];
    let flags_7 = input[7];
    let byte_8 = input[8];
    let flags_9 = input[9];
    let flags_12 = input[12];

    let header_type = detect_header_type(flags_7);

    let prg_rom_size = prg_rom_chunk_count as usize * PRG_ROM_BYTES_PER_CHUNK;
    let chr_rom_size = chr_rom_chunk_count as usize * CHR_ROM_BYTES_PER_CHUNK;

    let four_screen_mode = crate::bits::get_bit(flags_6, 3);
    let trainer_present = crate::bits::get_bit(flags_6, 2);
    let sram_present = crate::bits::get_bit(flags_6, 1);
    let mirroring_mode = if crate::bits::get_bit(flags_6, 0) {
        MirroringMode::Vertical
    } else {
        MirroringMode::Horizontal
    };

    proof { crate::bits::lemma_byte_ops(flags_7); }
    proof { crate::bits::lemma_byte_ops(flags_6); }
    proof { crate::bits::lemma_byte_ops(byte_8); }
    let (mut prg_ram_chunk_count, mapper_number) = match header_type {
        HeaderType::Standard => (byte_8, (flags_7 & 0b11110000) as u16 + (flags_6 >> 4) as u16),
        HeaderType::Extended => {
            (0u8, (byte_8 & 0b00001111) as u16 * 256 + (flags_7 & 0b11110000) as u16 + (flags_6 >> 4) as u16)
        },
    };

    if prg_ram_chunk_count == 0 {
        prg_ram_chunk_count = 1;
    }
    let prg_ram_size = prg_ram_chunk_count as usize * PRG_RAM_BYTES_PER_CHUNK;

    let is_playchoice_10 = crate::bits::get_bit(flags_7, 1);
    let is_vs_unisystem = crate::bits::get_bit(flags_7, 0);

    let byte_to_check = match header_type {
        HeaderType::Standard => flags_9,
        HeaderType::Extended => flags_12,
    };
    proof { crate::bits::lemma_byte_ops(byte_to_check); }
    let tv_system = match byte_to_check & 0b00000011 {
        0b00 => TVSystem::NTSC,
        0b10 => TVSystem::PAL,
        _ => TVSystem::DualCompatible,
    };

    // TODO support NES 2.0 file format (Extended)
    Ok(Header {
        header_type,
        prg_rom_size,
        chr_rom_size,
        prg_ram_size,
        mapper_number,
        four_screen_mode,
        trainer_present,
        sram_present,
        mirroring_mode,
        is_playchoice_10,
        is_vs_unisystem,
        tv_system,
        extension: None,
    })
}

/// Copies `input[start..start + len]`.
fn copy_range(input: &[u8], start: usize, len: usize) -> (r: Vec<u8>)
    requires
        start + len <= input@.len(),
    ensures
        r@ == input@.subrange(start as int, start + len),
{
    let mut out: Vec<u8> = Vec::new();
    let mut i: usize = 0;
    while i < len
        invariant
            i <= len,
            start + len <= input.len(),
            out@ == input@.subrange(start as int, start + i),
        decreases len - i,
    {
        out.push(input[start + i]);
        proof {
            assert(input@.subrange(start as int, start + i + 1) =~= input@.subrange(start as int, start + i).push(input@[start + i]));
        }
        i += 1;
    }
    out
}

impl Rom {
    /// An empty image: no PRG or CHR ROM, mapper 0.
    pub fn empty() -> (r: Rom)
        ensures
            r.prg_rom_bytes@.len() == 0,
            r.chr_rom_bytes@.len() == 0,
            r.trainer_bytes is None,
            r.header.mapper_number == 0,
            r.header.prg_ram_size == 0,
            r.header.mirroring_mode is Horizontal,
    {
        Rom {
            header: Header {
                header_type: HeaderType::Standard,
                prg_rom_size: 0,
                chr_rom_size: 0,
                prg_ram_size: 0,
                mapper_number: 0,
                four_screen_mode: false,
                trainer_present: false,
                sram_present: false,
                mirroring_mode: MirroringMode::Horizontal,
                is_playchoice_10: false,
                is_vs_unisystem: false,
                tv_system: TVSystem::NTSC,
                extension: None,
            },
            trainer_bytes: None,
            prg_rom_bytes: Vec::new(),
            chr_rom_bytes: Vec::new(),
        }
    }

    /// Reads an iNES image: the header, the trainer when the header announces one, then PRG ROM
    /// and CHR ROM of the sizes that the header gives. Bytes after CHR ROM are ignored.
    pub fn load_rom(input: &[u8]) -> (r: Result<Rom, RomError>)
        ensures
            match r {
                Ok(rom) => {
                    let h = spec_header(input@);
                    let t = trainer_len(h);
                    &&& has_signature(input@)
                    &&& input@.len() >= required_len(h)
                    &&& rom.header == h
                    &&& (h.trainer_present ==> (rom.trainer_bytes matches Some(tb) && tb@ == input@.subrange(16, 16 + 512int)))
                    &&& (!h.trainer_present ==> rom.trainer_bytes is None)
                    &&& rom.prg_rom_bytes@ == spec_prg_rom(input@)
                    &&& rom.chr_rom_bytes@ == spec_chr_rom(input@)
                },
                Err(e) => {
                    ||| !has_signature(input@) && e is InvalidSignature
                    ||| has_signature(input@) && input@.len() < HEADER_SIZE && e is UnexpectedEnd
                    ||| has_signature(input@) && input@.len() >= HEADER_SIZE && input@.len() < required_len(spec_header(input@)) && e is UnexpectedEnd
                },
            },
    {
        let header = match parse_header(input) {
            Ok(h) => h,
            Err(e) => return Err(e),
        };
        let mut cursor: usize = HEADER_SIZE;
        let trainer_bytes = if header.trainer_present {
            if input.len() - cursor < TRAINER_SIZE {
                return Err(RomError::UnexpectedEnd);
            }
            let t = copy_range(input, cursor, TRAINER_SIZE);
            cursor = cursor + TRAINER_SIZE;
            Some(t)
        } else {
            None
        };
        if input.len() - cursor < header.prg_rom_size {
            return Err(RomError::UnexpectedEnd);
        }
        let prg_rom_bytes = copy_range(input, cursor, header.prg_rom_size);
        cursor = cursor + header.prg_rom_size;
        if input.len() - cursor < header.chr_rom_size {
            return Err(RomError::UnexpectedEnd);
        }
        let chr_rom_bytes = copy_range(input, cursor, header.chr_rom_size);
        Ok(Rom { header, trainer_bytes, prg_rom_bytes, chr_rom_bytes })
    }
}

} // verus!
