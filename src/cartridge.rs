use vstd::prelude::*;
use crate::address::{RAM_END, RAM_SIZE, RAM_START, ROM_END, ROM_SIZE};
use crate::licensee::{new_licensee_lookup, new_licensee_name, old_licensee_lookup, old_licensee_name};

verus! {

pub const ENTRY_POINT: usize = 0x100;
pub const LOGO_START: usize = 0x104;
pub const LOGO_SIZE: usize = 48;
pub const TITLE_START: usize = 0x134;
pub const TITLE_SIZE: usize = 16;
pub const MANUFACTURER_CODE: usize = 0x13F;
pub const NEW_LICENSEE_CODE: usize = 0x144;
pub const SGB_FLAG: usize = 0x146;
pub const CARTRIDGE_TYPE: usize = 0x147;
pub const ROM_SIZE_CODE: usize = 0x148;
pub const RAM_SIZE_CODE: usize = 0x149;
pub const DESTINATION_CODE: usize = 0x14A;
pub const OLD_LICENSEE_CODE: usize = 0x14B;
pub const MASK_ROM_VERSION: usize = 0x14C;
pub const HEADER_CHECKSUM: usize = 0x14D;

/// The logo that every valid cartridge holds at 0x104..0x134.
pub open spec fn nintendo_logo() -> Seq<u8> {
    seq![
        0xCEu8, 0xED, 0x66, 0x66, 0xCC, 0x0D, 0x00, 0x0B, 0x03, 0x73, 0x00, 0x83, 0x00, 0x0C, 0x00, 0x0D,
        0x00, 0x08, 0x11, 0x1F, 0x88, 0x89, 0x00, 0x0E, 0xDC, 0xCC, 0x6E, 0xE6, 0xDD, 0xDD, 0xD9, 0x99,
        0xBB, 0xBB, 0x67, 0x63, 0x6E, 0x0E, 0xEC, 0xCC, 0xDD, 0xDC, 0x99, 0x9F, 0xBB, 0xB9, 0x33, 0x3E,
    ]
}

/// The header checksum after folding the first `n` bytes from 0x134:
/// x := (x - b - 1) mod 256, starting from 0.
pub open spec fn checksum_prefix(bytes: Seq<u8>, n: nat) -> u8
    decreases n,
{
    if n == 0 {
        0
    } else {
        let prev = checksum_prefix(bytes, (n - 1) as nat);
        ((prev as int - bytes[TITLE_START + n - 1] as int - 1) % 256) as u8
    }
}

/// The header checksum of an image: the fold over bytes 0x134..=0x14C.
pub open spec fn header_checksum(bytes: Seq<u8>) -> u8 {
    checksum_prefix(bytes, 25)
}

/// The header checksum depends on bytes 0x134..=0x14C alone.
pub proof fn lemma_header_checksum_depends_on_header(a: Seq<u8>, b: Seq<u8>)
    requires
        forall|i: int| TITLE_START <= i <= MASK_ROM_VERSION ==> a[i] == b[i],
    ensures
        header_checksum(a) == header_checksum(b),
{
    lemma_checksum_prefix_agree(a, b, 25);
}

/// A header of zero bytes has checksum (-25) mod 256 = 0xE7.
pub proof fn lemma_zero_header_checksum(b: Seq<u8>)
    requires
        forall|i: int| TITLE_START <= i <= MASK_ROM_VERSION ==> b[i] == 0,
    ensures
        header_checksum(b) == 0xE7,
{
    lemma_zero_checksum_prefix(b, 25);
}

proof fn lemma_zero_checksum_prefix(b: Seq<u8>, n: nat)
    requires
        n <= 25,
        forall|i: int| TITLE_START <= i <= MASK_ROM_VERSION ==> b[i] == 0,
    ensures
        checksum_prefix(b, n) == 256 - n || (n == 0 && checksum_prefix(b, n) == 0),
    decreases n,
{
    if n > 0 {
        lemma_zero_checksum_prefix(b, (n - 1) as nat);
        assert(b[TITLE_START + n - 1] == 0);
    }
}

proof fn lemma_checksum_prefix_agree(a: Seq<u8>, b: Seq<u8>, n: nat)
    requires
        n <= 25,
        forall|i: int| TITLE_START <= i <= MASK_ROM_VERSION ==> a[i] == b[i],
    ensures
        checksum_prefix(a, n) == checksum_prefix(b, n),
    decreases n,
{
    if n > 0 {
        lemma_checksum_prefix_agree(a, b, (n - 1) as nat);
        assert(a[TITLE_START + n - 1] == b[TITLE_START + n - 1]);
    }
}

/// Memory-bank controller and extras that the cartridge-type byte announces.
#[derive(Debug, Clone, Copy, PartialEq, Eq, Structural)]
pub enum CartridgeType {
    RomOnly,
    Mbc1,
    Mbc1Ram,
    Mbc1RamBattery,
    Mbc2,
    Mbc2Battery,
    RomRam,
    RomRamBattery,
    Mmm01,
    Mmm01Ram,
    Mmm01RamBattery,
    Mbc3TimerBattery,
    Mbc3TimerRamBattery,
    Mbc3,
    Mbc3Ram,
    Mbc3RamBattery,
    Mbc5,
    Mbc5Ram,
    Mbc5RamBattery,
    Mbc5Rumble,
    Mbc5RumbleRam,
    Mbc5RumbleRamBattery,
    PocketCamera,
    BandaiTama5,
    HuC3,
    HuC1RamBattery,
    Unknown(u8),
}

pub open spec fn cartridge_type_of(code: u8) -> CartridgeType {
    match code {
        0x00 => CartridgeType::RomOnly,
        0x01 => CartridgeType::Mbc1,
        0x02 => CartridgeType::Mbc1Ram,
        0x03 => CartridgeType::Mbc1RamBattery,
        0x05 => CartridgeType::Mbc2,
        0x06 => CartridgeType::Mbc2Battery,
        0x08 => CartridgeType::RomRam,
        0x09 => CartridgeType::RomRamBattery,
        0x0B => CartridgeType::Mmm01,
        0x0C => CartridgeType::Mmm01Ram,
        0x0D => CartridgeType::Mmm01RamBattery,
        0x0F => CartridgeType::Mbc3TimerBattery,
        0x10 => CartridgeType::Mbc3TimerRamBattery,
        0x11 => CartridgeType::Mbc3,
        0x12 => CartridgeType::Mbc3Ram,
        0x13 => CartridgeType::Mbc3RamBattery,
        0x19 => CartridgeType::Mbc5,
        0x1A => CartridgeType::Mbc5Ram,
        0x1B => CartridgeType::Mbc5RamBattery,
        0x1C => CartridgeType::Mbc5Rumble,
        0x1D => CartridgeType::Mbc5RumbleRam,
        0x1E => CartridgeType::Mbc5RumbleRamBattery,
        0x1F => CartridgeType::PocketCamera,
        0xFD => CartridgeType::BandaiTama5,
        0xFE => CartridgeType::HuC3,
        0xFF => CartridgeType::HuC1RamBattery,
        other => CartridgeType::Unknown(other),
    }
}

/// Where the cartridge was meant to be sold.
#[derive(Debug, Clone, Copy, PartialEq, Eq, Structural)]
pub enum DestinationCode {
    Japan,
    Overseas,
    Unknown(u8),
}

pub open spec fn destination_of(code: u8) -> DestinationCode {
    match code {
        0x00 => DestinationCode::Japan,
        0x01 => DestinationCode::Overseas,
        other => DestinationCode::Unknown(other),
    }
}

/// ROM size in bytes and in 16 KiB banks for a ROM-size code; (0, 0) for an unknown code.
pub open spec fn rom_size_of(code: u8) -> (usize, usize) {
    match code {
        0x00 => (32768, 2),
        0x01 => (65536, 4),
        0x02 => (131072, 8),
        0x03 => (262144, 16),
        0x04 => (524288, 32),
        0x05 => (1048576, 64),
        0x06 => (2097152, 128),
        0x07 => (4194304, 256),
        0x08 => (8388608, 512),
        0x52 => (1179648, 72),
        0x53 => (1310720, 80),
        0x54 => (1572864, 96),
        _ => (0, 0),
    }
}

/// External RAM size in bytes for a RAM-size code; 0 for an unknown code.
pub open spec fn ram_size_of(code: u8) -> usize {
    match code {
        0x01 => 2048,
        0x02 => 8192,
        0x03 => 32768,
        0x04 => 131072,
        0x05 => 65536,
        _ => 0,
    }
}

/// The publisher: a name from one of the two licensee tables, or the raw code when the
/// table does not know it.
pub enum Licensee {
    Known(String),
    UnknownOld(u8),
    UnknownNew(u8, u8),
}

/// The licensee that the header names: the two-character code at 0x144 when the
/// one-byte code at 0x14B is 0x33, the one-byte code otherwise.
pub open spec fn licensee_matches(l: Licensee, bytes: Seq<u8>) -> bool {
    let old_code = bytes[OLD_LICENSEE_CODE as int];
    let first = bytes[NEW_LICENSEE_CODE as int];
    let second = bytes[NEW_LICENSEE_CODE + 1int];
    if old_code == 0x33 {
        match new_licensee_name(first, second) {
            Some(name) => l matches Licensee::Known(s) && s@ == name,
            None => l == Licensee::UnknownNew(first, second),
        }
    } else {
        match old_licensee_name(old_code) {
            Some(name) => l matches Licensee::Known(s) && s@ == name,
            None => l == Licensee::UnknownOld(old_code),
        }
    }
}

/// What `String::from_utf8_lossy` makes of a byte sequence.
pub uninterp spec fn lossy_text(b: Seq<u8>) -> Seq<char>;

/// The characters of an ASCII byte sequence.
pub open spec fn ascii_chars(b: Seq<u8>) -> Seq<char> {
    Seq::new(b.len(), |i: int| b[i] as char)
}

/// Relies on `String::from_utf8_lossy`, which keeps valid UTF-8 (ASCII in particular)
/// as it is and replaces invalid sequences.
#[verifier::external_body]
fn text_from_bytes(b: &[u8]) -> (r: String)
    ensures
        r@ == lossy_text(b@),
        (forall|i: int| 0 <= i < b@.len() ==> b@[i] < 0x80) ==> r@ == ascii_chars(b@),
{
    String::from_utf8_lossy(b).into_owned()
}

/// Number of title bytes before the first NUL (at most 16).
pub open spec fn title_len(bytes: Seq<u8>) -> int {
    title_len_from(bytes, 0)
}

/// Position of the first NUL among the title bytes from `i` on (16 when there is none).
pub open spec fn title_len_from(bytes: Seq<u8>, i: int) -> int
    decreases TITLE_SIZE - i,
{
    if i >= TITLE_SIZE {
        TITLE_SIZE as int
    } else if bytes[TITLE_START + i] == 0 {
        i
    } else {
        title_len_from(bytes, i + 1)
    }
}

/// Whether the title bytes before the first NUL are all ASCII.
pub open spec fn title_is_ascii(bytes: Seq<u8>) -> bool {
    forall|i: int| 0 <= i < title_len(bytes) ==> #[trigger] bytes[TITLE_START + i] < 0x80
}

/// A parsed ROM image: a 32 KiB ROM window, an 8 KiB external RAM window and the header.
pub struct Cartridge {
    pub rom: [u8; ROM_SIZE],
    pub ram: [u8; RAM_SIZE],
    pub entry_point_values: [u8; 4],
    pub title: String,
    pub manufacturer_code: u8,
    pub licensee_code: Licensee,
    pub supports_sgb: bool,
    pub cartridge_type: CartridgeType,
    pub rom_size: usize,
    pub rom_number_banks: usize,
    pub ram_size: usize,
    pub destination_code: DestinationCode,
    pub mask_rom_version_number: u8,
    pub is_nintendo_logo: bool,
    pub is_header_checksum_valid: bool,
}

/// Whether `c` is the cartridge parsed from the image `bytes`.
pub open spec fn parsed_from(c: Cartridge, bytes: Seq<u8>) -> bool {
    &&& c.rom@ == bytes.subrange(0, ROM_SIZE as int)
    &&& forall|i: int| 0 <= i < RAM_SIZE ==> #[trigger] c.ram@[i] == (if RAM_START + i < bytes.len() { bytes[RAM_START + i] } else { 0u8 })
    &&& c.entry_point_values@ == bytes.subrange(ENTRY_POINT as int, ENTRY_POINT + 4)
    &&& c.title@ == lossy_text(bytes.subrange(TITLE_START as int, TITLE_START + title_len(bytes)))
    &&& title_is_ascii(bytes) ==> c.title@ == ascii_chars(bytes.subrange(TITLE_START as int, TITLE_START + title_len(bytes)))
    &&& c.manufacturer_code == bytes[MANUFACTURER_CODE as int]
    &&& licensee_matches(c.licensee_code, bytes)
    &&& c.supports_sgb == (bytes[SGB_FLAG as int] == 0x03)
    &&& c.cartridge_type == cartridge_type_of(bytes[CARTRIDGE_TYPE as int])
    &&& (c.rom_size, c.rom_number_banks) == rom_size_of(bytes[ROM_SIZE_CODE as int])
    &&& c.ram_size == ram_size_of(bytes[RAM_SIZE_CODE as int])
    &&& c.destination_code == destination_of(bytes[DESTINATION_CODE as int])
    &&& c.mask_rom_version_number == bytes[MASK_ROM_VERSION as int]
    &&& c.is_nintendo_logo == (bytes.subrange(LOGO_START as int, LOGO_START + LOGO_SIZE) == nintendo_logo())
    &&& c.is_header_checksum_valid == (header_checksum(bytes) == bytes[HEADER_CHECKSUM as int])
}

/// Whether `c` is the empty cartridge: zeroed memory, title and licensee "none", every
/// other header field zero (ROM-only, Japan, no SGB) and no valid header.
pub open spec fn is_ejected(c: Cartridge) -> bool {
    &&& forall|i: int| 0 <= i < ROM_SIZE ==> #[trigger] c.rom@[i] == 0
    &&& forall|i: int| 0 <= i < RAM_SIZE ==> #[trigger] c.ram@[i] == 0
    &&& forall|i: int| 0 <= i < 4 ==> #[trigger] c.entry_point_values@[i] == 0
    &&& c.title@ == "none"@
    &&& c.licensee_code matches Licensee::Known(s) && s@ == "none"@
    &&& c.manufacturer_code == 0
    &&& !c.supports_sgb
    &&& c.cartridge_type == CartridgeType::RomOnly
    &&& c.rom_size == 0 && c.rom_number_banks == 0 && c.ram_size == 0
    &&& c.destination_code == DestinationCode::Japan
    &&& c.mask_rom_version_number == 0
    &&& !c.is_nintendo_logo
    &&& !c.is_header_checksum_valid
}

/// Expands a 4-bit value into a byte by doubling each bit, most significant first.
pub open spec fn double_nibble(n: u8) -> u8 {
    ((if n & 8 != 0 { 0xC0int } else { 0 }) + (if n & 4 != 0 { 0x30int } else { 0 }) + (if n & 2 != 0 { 0x0Cint } else { 0 })
        + (if n & 1 != 0 { 0x03int } else { 0 })) as u8
}

/// Nibble `k` (high nibble first) of the 24-byte logo half `half` read from `rom`.
pub open spec fn logo_nibble(rom: Seq<u8>, half: int, k: int) -> u8 {
    let byte = rom[LOGO_START + 24 * half + k / 2];
    if k % 2 == 0 {
        byte >> 4u8
    } else {
        byte & 0x0F
    }
}

/// Byte (`row`, `col`) of the expanded logo bitmap: each half of the packed logo is
/// 12 columns of 4 nibbles, every nibble row is repeated 4 times and every bit is
/// widened to two.
pub open spec fn logo_byte(rom: Seq<u8>, row: int, col: int) -> u8 {
    double_nibble(logo_nibble(rom, row / 16, 4 * col + (row / 4) % 4))
}

impl Cartridge {
    pub open spec fn is_valid_spec(&self) -> bool {
        self.is_nintendo_logo && self.is_header_checksum_valid
    }

    /// Whether two cartridges agree on everything but their RAM window.
    pub open spec fn same_but_ram(&self, o: &Cartridge) -> bool {
        &&& self.rom == o.rom
        &&& self.entry_point_values == o.entry_point_values
        &&& self.title == o.title
        &&& self.manufacturer_code == o.manufacturer_code
        &&& self.licensee_code == o.licensee_code
        &&& self.supports_sgb == o.supports_sgb
        &&& self.cartridge_type == o.cartridge_type
        &&& self.rom_size == o.rom_size
        &&& self.rom_number_banks == o.rom_number_banks
        &&& self.ram_size == o.ram_size
        &&& self.destination_code == o.destination_code
        &&& self.mask_rom_version_number == o.mask_rom_version_number
        &&& self.is_nintendo_logo == o.is_nintendo_logo
        &&& self.is_header_checksum_valid == o.is_header_checksum_valid
    }

    /// Parses a ROM image. An image shorter than 32 KiB gives the empty cartridge.
    pub fn insert(bytes: &[u8]) -> (r: Cartridge)
        ensures
            bytes@.len() >= ROM_SIZE ==> parsed_from(r, bytes@),
            bytes@.len() < ROM_SIZE ==> is_ejected(r),
    {
        if bytes.len() < ROM_SIZE {
            return Cartridge::eject();
        }
        let rom: [u8; ROM_SIZE] = Cartridge::extract_rom(bytes);
        let ram: [u8; RAM_SIZE] = Cartridge::extract_ram(bytes);
        let entry_point_values: [u8; 4] = Cartridge::extract_entry_point_values(bytes);
        let title: String = Cartridge::extract_title(bytes);
        let manufacturer_code: u8 = Cartridge::extract_manufacturer_code(bytes);
        let licensee_code: Licensee = Cartridge::extract_licensee_code(bytes);
        let supports_sgb: bool = Cartridge::extract_sgb_flag(bytes);
        let cartridge_type: CartridgeType = Cartridge::extract_cartridge_type(bytes);
        let (rom_size, rom_number_banks): (usize, usize) = Cartridge::extract_rom_size(bytes);
        let ram_size: usize = Cartridge::extract_ram_size(bytes);
        let destination_code: DestinationCode = Cartridge::extract_destination_code(bytes);
        let mask_rom_version_number: u8 = Cartridge::extract_mask_rom_version_number(bytes);
        let is_nintendo_logo: bool = Cartridge::is_nintendo_logo(bytes);
        let is_header_checksum_valid: bool = Cartridge::is_header_checksum_valid(bytes);
        Cartridge {
            rom,
            ram,
            entry_point_values,
            title,
            manufacturer_code,
            licensee_code,
            supports_sgb,
            cartridge_type,
            rom_size,
            rom_number_banks,
            ram_size,
            destination_code,
            mask_rom_version_number,
            is_nintendo_logo,
            is_header_checksum_valid,
        }
    }

    fn extract_rom(bytes: &[u8]) -> (r: [u8; ROM_SIZE])
        requires
            bytes@.len() >= ROM_SIZE,
        ensures
            r@ == bytes@.subrange(0, ROM_SIZE as int),
    {
        let mut rom: [u8; ROM_SIZE] = [0u8; ROM_SIZE];
        let mut i: usize = 0;
        while i < ROM_SIZE
            invariant
                0 <= i <= ROM_SIZE,
                bytes@.len() >= ROM_SIZE,
                forall|j: int| 0 <= j < i ==> rom@[j] == bytes@[j],
            decreases ROM_SIZE - i,
        {
            rom[i] = bytes[i];
            i += 1;
        }
        assert(rom@ =~= bytes@.subrange(0, ROM_SIZE as int));
        rom
    }

    /// The external RAM window, taken from the image where the image reaches it.
    fn extract_ram(bytes: &[u8]) -> (r: [u8; RAM_SIZE])
        ensures
            forall|i: int| 0 <= i < RAM_SIZE ==> #[trigger] r@[i] == (if RAM_START + i < bytes@.len() { bytes@[RAM_START + i] } else { 0u8 }),
    {
        let mut ram: [u8; RAM_SIZE] = [0u8; RAM_SIZE];
        let mut i: usize = 0;
        while i < RAM_SIZE
            invariant
                0 <= i <= RAM_SIZE,
                forall|j: int| 0 <= j < i ==> #[trigger] ram@[j] == (if RAM_START + j < bytes@.len() { bytes@[RAM_START + j] } else { 0u8 }),
                forall|j: int| i <= j < RAM_SIZE ==> #[trigger] ram@[j] == 0,
            decreases RAM_SIZE - i,
        {
            let address: usize = RAM_START as usize + i;
            if address < bytes.len() {
                ram[i] = bytes[address];
            }
            i += 1;
        }
        ram
    }

    fn extract_entry_point_values(bytes: &[u8]) -> (r: [u8; 4])
        requires
            bytes@.len() >= ROM_SIZE,
        ensures
            r@ == bytes@.subrange(ENTRY_POINT as int, ENTRY_POINT + 4),
    {
        let r: [u8; 4] = [bytes[ENTRY_POINT], bytes[ENTRY_POINT + 1], bytes[ENTRY_POINT + 2], bytes[ENTRY_POINT + 3]];
        assert(r@ =~= bytes@.subrange(ENTRY_POINT as int, ENTRY_POINT + 4));
        r
    }

    /// The title: the bytes at 0x134..0x144 up to the first NUL.
    fn extract_title(bytes: &[u8]) -> (r: String)
        requires
            bytes@.len() >= ROM_SIZE,
        ensures
            r@ == lossy_text(bytes@.subrange(TITLE_START as int, TITLE_START + title_len(bytes@))),
            title_is_ascii(bytes@) ==> r@ == ascii_chars(bytes@.subrange(TITLE_START as int, TITLE_START + title_len(bytes@))),
    {
        let mut title: Vec<u8> = Vec::new();
        let mut i: usize = 0;
        while i < TITLE_SIZE && bytes[TITLE_START + i] != 0
            invariant
                0 <= i <= TITLE_SIZE,
                bytes@.len() >= ROM_SIZE,
                title_len(bytes@) == title_len_from(bytes@, i as int),
                title@ == bytes@.subrange(TITLE_START as int, TITLE_START + i),
            decreases TITLE_SIZE - i,
        {
            title.push(bytes[TITLE_START + i]);
            i += 1;
            assert(title@ =~= bytes@.subrange(TITLE_START as int, TITLE_START + i));
        }
        assert(title_len_from(bytes@, i as int) == i);
        proof {
            if title_is_ascii(bytes@) {
                assert forall|k: int| 0 <= k < title@.len() implies title@[k] < 0x80 by {
                    assert(title@[k] == bytes@[TITLE_START + k]);
                }
            }
        }
        text_from_bytes(title.as_slice())
    }

    fn extract_manufacturer_code(bytes: &[u8]) -> (r: u8)
        requires
            bytes@.len() >= ROM_SIZE,
        ensures
            r == bytes@[MANUFACTURER_CODE as int],
    {
        bytes[MANUFACTURER_CODE]
    }

    fn extract_licensee_code(bytes: &[u8]) -> (r: Licensee)
        requires
            bytes@.len() >= ROM_SIZE,
        ensures
            licensee_matches(r, bytes@),
    {
        let old_code: u8 = bytes[OLD_LICENSEE_CODE];
        if old_code != 0x33 {
            match old_licensee_lookup(old_code) {
                Some(name) => Licensee::Known(name.to_owned()),
                None => Licensee::UnknownOld(old_code),
            }
        } else {
            let first: u8 = bytes[NEW_LICENSEE_CODE];
            let second: u8 = bytes[NEW_LICENSEE_CODE + 1];
            match new_licensee_lookup(first, second) {
                Some(name) => Licensee::Known(name.to_owned()),
                None => Licensee::UnknownNew(first, second),
            }
        }
    }

    fn extract_sgb_flag(bytes: &[u8]) -> (r: bool)
        requires
            bytes@.len() >= ROM_SIZE,
        ensures
            r == (bytes@[SGB_FLAG as int] == 0x03),
    {
        bytes[SGB_FLAG] == 0x03
    }

    fn extract_cartridge_type(bytes: &[u8]) -> (r: CartridgeType)
        requires
            bytes@.len() >= ROM_SIZE,
        ensures
            r == cartridge_type_of(bytes@[CARTRIDGE_TYPE as int]),
    {
        match bytes[CARTRIDGE_TYPE] {
            0x00 => CartridgeType::RomOnly,
            0x01 => CartridgeType::Mbc1,
            0x02 => CartridgeType::Mbc1Ram,
            0x03 => CartridgeType::Mbc1RamBattery,
            0x05 => CartridgeType::Mbc2,
            0x06 => CartridgeType::Mbc2Battery,
            0x08 => CartridgeType::RomRam,
            0x09 => CartridgeType::RomRamBattery,
            0x0B => CartridgeType::Mmm01,
            0x0C => CartridgeType::Mmm01Ram,
            0x0D => CartridgeType::Mmm01RamBattery,
            0x0F => CartridgeType::Mbc3TimerBattery,
            0x10 => CartridgeType::Mbc3TimerRamBattery,
            0x11 => CartridgeType::Mbc3,
            0x12 => CartridgeType::Mbc3Ram,
            0x13 => CartridgeType::Mbc3RamBattery,
            0x19 => CartridgeType::Mbc5,
            0x1A => CartridgeType::Mbc5Ram,
            0x1B => CartridgeType::Mbc5RamBattery,
            0x1C => CartridgeType::Mbc5Rumble,
            0x1D => CartridgeType::Mbc5RumbleRam,
            0x1E => CartridgeType::Mbc5RumbleRamBattery,
            0x1F => CartridgeType::PocketCamera,
            0xFD => CartridgeType::BandaiTama5,
            0xFE => CartridgeType::HuC3,
            0xFF => CartridgeType::HuC1RamBattery,
            other => CartridgeType::Unknown(other),
        }
    }

    fn extract_rom_size(bytes: &[u8]) -> (r: (usize, usize))
        requires
            bytes@.len() >= ROM_SIZE,
        ensures
            r == rom_size_of(bytes@[ROM_SIZE_CODE as int]),
    {
        match bytes[ROM_SIZE_CODE] {
            0x00 => (32768, 2),
            0x01 => (65536, 4),
            0x02 => (131072, 8),
            0x03 => (262144, 16),
            0x04 => (524288, 32),
            0x05 => (1048576, 64),
            0x06 => (2097152, 128),
            0x07 => (4194304, 256),
            0x08 => (8388608, 512),
            0x52 => (1179648, 72),
            0x53 => (1310720, 80),
            0x54 => (1572864, 96),
            _ => (0, 0),
        }
    }

    fn extract_ram_size(bytes: &[u8]) -> (r: usize)
        requires
            bytes@.len() >= ROM_SIZE,
        ensures
            r == ram_size_of(bytes@[RAM_SIZE_CODE as int]),
    {
        match bytes[RAM_SIZE_CODE] {
            0x01 => 2048,
            0x02 => 8192,
            0x03 => 32768,
            0x04 => 131072,
            0x05 => 65536,
            _ => 0,
        }
    }

    fn extract_destination_code(bytes: &[u8]) -> (r: DestinationCode)
        requires
            bytes@.len() >= ROM_SIZE,
        ensures
            r == destination_of(bytes@[DESTINATION_CODE as int]),
    {
        match bytes[DESTINATION_CODE] {
            0x00 => DestinationCode::Japan,
            0x01 => DestinationCode::Overseas,
            other => DestinationCode::Unknown(other),
        }
    }

    fn extract_mask_rom_version_number(bytes: &[u8]) -> (r: u8)
        requires
            bytes@.len() >= ROM_SIZE,
        ensures
            r == bytes@[MASK_ROM_VERSION as int],
    {
        bytes[MASK_ROM_VERSION]
    }

    /// Whether the image holds the logo at 0x104..0x134.
    pub fn is_nintendo_logo(bytes: &[u8]) -> (r: bool)
        requires
            bytes@.len() >= ROM_SIZE,
        ensures
            r == (bytes@.subrange(LOGO_START as int, LOGO_START + LOGO_SIZE) == nintendo_logo()),
    {
        let valid_logo: [u8; LOGO_SIZE] = [
            0xCE, 0xED, 0x66, 0x66, 0xCC, 0x0D, 0x00, 0x0B, 0x03, 0x73, 0x00, 0x83, 0x00, 0x0C, 0x00, 0x0D,
            0x00, 0x08, 0x11, 0x1F, 0x88, 0x89, 0x00, 0x0E, 0xDC, 0xCC, 0x6E, 0xE6, 0xDD, 0xDD, 0xD9, 0x99,
            0xBB, 0xBB, 0x67, 0x63, 0x6E, 0x0E, 0xEC, 0xCC, 0xDD, 0xDC, 0x99, 0x9F, 0xBB, 0xB9, 0x33, 0x3E,
        ];
        assert(valid_logo@ =~= nintendo_logo());
        let mut i: usize = 0;
        while i < LOGO_SIZE
            invariant
                0 <= i <= LOGO_SIZE,
                bytes@.len() >= ROM_SIZE,
                valid_logo@ == nintendo_logo(),
                forall|j: int| 0 <= j < i ==> bytes@[LOGO_START + j] == nintendo_logo()[j],
            decreases LOGO_SIZE - i,
        {
            if bytes[LOGO_START + i] != valid_logo[i] {
                assert(bytes@.subrange(LOGO_START as int, LOGO_START + LOGO_SIZE)[i as int] != nintendo_logo()[i as int]);
                return false;
            }
            i += 1;
        }
        assert(bytes@.subrange(LOGO_START as int, LOGO_START + LOGO_SIZE) =~= nintendo_logo());
        true
    }

    /// Whether the header checksum of the image matches the byte at 0x14D.
    pub fn is_header_checksum_valid(bytes: &[u8]) -> (r: bool)
        requires
            bytes@.len() >= ROM_SIZE,
        ensures
            r == (header_checksum(bytes@) == bytes@[HEADER_CHECKSUM as int]),
    {
        let mut checksum: u8 = 0;
        let mut n: usize = 0;
        while n < 25
            invariant
                0 <= n <= 25,
                bytes@.len() >= ROM_SIZE,
                checksum == checksum_prefix(bytes@, n as nat),
            decreases 25 - n,
        {
            let b: u8 = bytes[TITLE_START + n];
            checksum = ((checksum as u16 + 511 - b as u16) % 256) as u8;
            n += 1;
        }
        checksum == bytes[HEADER_CHECKSUM]
    }

    /// The empty cartridge: zeroed memory, no title and no valid header.
    pub fn eject() -> (r: Cartridge)
        ensures
            is_ejected(r),
    {
        Cartridge {
            rom: [0u8; ROM_SIZE],
            ram: [0u8; RAM_SIZE],
            entry_point_values: [0u8; 4],
            title: "none".to_owned(),
            manufacturer_code: 0,
            licensee_code: Licensee::Known("none".to_owned()),
            supports_sgb: false,
            cartridge_type: CartridgeType::RomOnly,
            rom_size: 0,
            rom_number_banks: 0,
            ram_size: 0,
            destination_code: DestinationCode::Japan,
            mask_rom_version_number: 0,
            is_nintendo_logo: false,
            is_header_checksum_valid: false,
        }
    }

    pub fn get_rom(&self) -> (r: [u8; ROM_SIZE])
        ensures
            r == self.rom,
    {
        self.rom
    }

    pub fn read_rom(&self, address: u16) -> (r: u8)
        requires
            address <= ROM_END,
        ensures
            r == self.rom@[address as int],
    {
        self.rom[address as usize]
    }

    pub fn get_ram(&self) -> (r: [u8; RAM_SIZE])
        ensures
            r == self.ram,
    {
        self.ram
    }

    pub fn read_ram(&self, address: u16) -> (r: u8)
        requires
            RAM_START <= address <= RAM_END,
        ensures
            r == self.ram@[address - RAM_START],
    {
        self.ram[(address - RAM_START) as usize]
    }

    pub fn write_ram(&mut self, address: u16, value: u8)
        requires
            RAM_START <= address <= RAM_END,
        ensures
            final(self).ram@ == old(self).ram@.update(address - RAM_START, value),
            final(self).same_but_ram(old(self)),
    {
        self.ram[(address - RAM_START) as usize] = value;
    }

    /// A cartridge is valid when its logo matches and its header checksum is right.
    pub fn is_valid(&self) -> (r: bool)
        ensures
            r == self.is_valid_spec(),
    {
        self.is_nintendo_logo && self.is_header_checksum_valid
    }

    pub fn get_title(&self) -> (r: String)
        ensures
            r@ == self.title@,
    {
        self.title.clone()
    }

    /// The address at which execution of the cartridge begins.
    pub fn get_entry_point(&self) -> (r: u16)
        ensures
            r == ENTRY_POINT,
    {
        ENTRY_POINT as u16
    }

    /// Expands the packed 48-byte logo of the ROM into a 32x12 bitmap, two bits per pixel.
    pub fn get_nintendo_logo(&self) -> (r: [[u8; 12]; 32])
        ensures
            forall|row: int, col: int| 0 <= row < 32 && 0 <= col < 12 ==> #[trigger] r@[row]@[col] == logo_byte(self.rom@, row, col),
    {
        let mut logo: [[u8; 12]; 32] = [[0u8; 12]; 32];
        let mut row: usize = 0;
        while row < 32
            invariant
                0 <= row <= 32,
                forall|r: int, c: int| 0 <= r < row && 0 <= c < 12 ==> #[trigger] logo@[r]@[c] == logo_byte(self.rom@, r, c),
            decreases 32 - row,
        {
            let mut line: [u8; 12] = [0u8; 12];
            let mut col: usize = 0;
            while col < 12
                invariant
                    0 <= row < 32,
                    0 <= col <= 12,
                    forall|c: int| 0 <= c < col ==> #[trigger] line@[c] == logo_byte(self.rom@, row as int, c),
                decreases 12 - col,
            {
                let k: usize = 4 * col + (row / 4) % 4;
                let byte: u8 = self.rom[LOGO_START + 24 * (row / 16) + k / 2];
                let nibble: u8 = if k % 2 == 0 { byte >> 4u8 } else { byte & 0x0F };
                let b3: u8 = if nibble & 8 != 0 { 0xC0 } else { 0 };
                let b2: u8 = if nibble & 4 != 0 { 0x30 } else { 0 };
                let b1: u8 = if nibble & 2 != 0 { 0x0C } else { 0 };
                let b0: u8 = if nibble & 1 != 0 { 0x03 } else { 0 };
                line[col] = b3 + b2 + b1 + b0;
                col += 1;
            }
            logo[row] = line;
            row += 1;
        }
        logo
    }
}

} // verus!
