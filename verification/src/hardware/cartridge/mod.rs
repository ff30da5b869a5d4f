use std::ops::RangeInclusive;
use vstd::prelude::*;
use vstd::slice::slice_subrange;
use vstd::string::StrSliceExecFns;
use crate::hardware::utils::{concatenate_bytes, spec_concatenate_bytes};

verus! {

/// The length of the shortest image that holds a whole header.
pub const HEADER_END: usize = 0x150;

/// The fields of the cartridge header.
#[derive(Debug, Clone, Copy, PartialEq, Eq, Hash, Structural)]
pub enum CartridgeSection {
    EntryPoint,
    NintendoLogo,
    Title,
    ManufacturerCode,
    CGBFlag,
    NewLicenseeCode,
    SGBFlag,
    CartridgeType,
    ROMSize,
    RAMSize,
    DestinationCode,
    OldLicenseeCode,
    MaskROMVersionNumber,
    HeaderChecksum,
    GlobalChecksum,
}

/// Why an image could not be loaded.
#[derive(Debug, Clone, Copy, PartialEq, Eq, Structural)]
pub enum LoadError {
    /// The image could not be opened or read.
    Unreadable,
    /// The image ends before the header does.
    TooShort,
}

/// The metadata that a cartridge image carries in its header.
#[derive(Debug)]
pub struct CartridgeHeader {
    pub entry_point: [u8; 4],
    pub nintendo_logo: [u8; 48],
    pub title: String,
    pub manufacturer_code: [u8; 4],
    pub cgb_flag: u8,
    pub new_licensee_code: [u8; 2],
    pub sgb_flag: u8,
    pub cartridge_type: u8,
    pub rom_size: u8,
    pub ram_size: u8,
    pub destination_code: u8,
    pub old_licensee_code: u8,
    pub mask_rom_version_number: u8,
    pub header_checksum: u8,
    pub global_checksum: u16,
}

/// What a header holds, as mathematical values.
pub struct HeaderView {
    pub entry_point: Seq<u8>,
    pub nintendo_logo: Seq<u8>,
    pub title: Seq<char>,
    pub manufacturer_code: Seq<u8>,
    pub cgb_flag: u8,
    pub new_licensee_code: Seq<u8>,
    pub sgb_flag: u8,
    pub cartridge_type: u8,
    pub rom_size: u8,
    pub ram_size: u8,
    pub destination_code: u8,
    pub old_licensee_code: u8,
    pub mask_rom_version_number: u8,
    pub header_checksum: u8,
    pub global_checksum: u16,
}

/// A cartridge: the image as it was read, and the header parsed from it.
pub struct Cartridge {
    pub filename: String,
    pub header: CartridgeHeader,
    pub rom: Vec<u8>,
}

/// The text that `String::from_utf8_lossy` makes of a byte sequence.
pub uninterp spec fn utf8_lossy(bytes: Seq<u8>) -> Seq<char>;

/// `text` without the NUL characters it starts with.
pub open spec fn trim_start_nul(text: Seq<char>) -> Seq<char>
    decreases text.len(),
{
    if text.len() > 0 && text.first() == '\0' {
        trim_start_nul(text.drop_first())
    } else {
        text
    }
}

/// `text` without the NUL characters it ends with.
pub open spec fn trim_end_nul(text: Seq<char>) -> Seq<char>
    decreases text.len(),
{
    if text.len() > 0 && text.last() == '\0' {
        trim_end_nul(text.drop_last())
    } else {
        text
    }
}

/// `text` without the NUL characters at either end.
pub open spec fn trim_nul(text: Seq<char>) -> Seq<char> {
    trim_end_nul(trim_start_nul(text))
}

/// Whether `title` neither starts nor ends with a NUL character.
pub open spec fn title_is_trimmed(title: Seq<char>) -> bool {
    title.len() > 0 ==> title.first() != '\0' && title.last() != '\0'
}

/// The bytes of `rom` that make up `section`.
pub open spec fn section_bytes(rom: Seq<u8>, section: CartridgeSection) -> Seq<u8> {
    rom.subrange(section.spec_first() as int, section.spec_last() + 1)
}

/// The title that an image carries: the text of its title bytes, without the
/// NUL characters at either end.
pub open spec fn title_of(rom: Seq<u8>) -> Seq<char> {
    trim_nul(utf8_lossy(section_bytes(rom, CartridgeSection::Title)))
}

/// The header that an image of at least `HEADER_END` bytes carries.
pub open spec fn header_of(rom: Seq<u8>) -> HeaderView {
    HeaderView {
        entry_point: section_bytes(rom, CartridgeSection::EntryPoint),
        nintendo_logo: section_bytes(rom, CartridgeSection::NintendoLogo),
        title: title_of(rom),
        manufacturer_code: section_bytes(rom, CartridgeSection::ManufacturerCode),
        cgb_flag: rom[0x143],
        new_licensee_code: section_bytes(rom, CartridgeSection::NewLicenseeCode),
        sgb_flag: rom[0x146],
        cartridge_type: rom[0x147],
        rom_size: rom[0x148],
        ram_size: rom[0x149],
        destination_code: rom[0x14A],
        old_licensee_code: rom[0x14B],
        mask_rom_version_number: rom[0x14C],
        header_checksum: rom[0x14D],
        global_checksum: spec_concatenate_bytes(rom[0x14F], rom[0x14E]),
    }
}

/// The characters that ASCII bytes stand for, one for each byte.
pub open spec fn ascii_text(bytes: Seq<u8>) -> Seq<char> {
    Seq::new(bytes.len(), |i: int| bytes[i] as char)
}

/// Whether every byte is an ASCII code.
pub open spec fn is_ascii_bytes(bytes: Seq<u8>) -> bool {
    forall|i: int| 0 <= i < bytes.len() ==> #[trigger] bytes[i] < 0x80
}

/// ASCII bytes are well-formed UTF-8, and encode one character each.
pub proof fn lemma_ascii_is_utf8(bytes: Seq<u8>)
    requires
        is_ascii_bytes(bytes),
    ensures
        vstd::utf8::valid_utf8(bytes),
        vstd::utf8::decode_utf8(bytes) == ascii_text(bytes),
{
    let text = ascii_text(bytes);
    assert forall|i: int| 0 <= i < text.len() implies '\0' <= #[trigger] text[i] <= '\u{7f}' by {
        assert(bytes[i] < 0x80);
    }
    assert(vstd::utf8::is_ascii_chars(text));
    vstd::utf8::is_ascii_chars_encode_utf8(text);
    let encoded = vstd::utf8::encode_utf8(text);
    assert forall|i: int| 0 <= i < bytes.len() implies encoded[i] == bytes[i] by {
        assert(bytes[i] < 0x80);
        assert(text[i] as u8 == encoded[i]);
        assert((bytes[i] as char) as u8 == bytes[i]);
    }
    assert(encoded =~= bytes);
    vstd::utf8::encode_utf8_valid_utf8(text);
    vstd::utf8::encode_utf8_decode_utf8(text);
}

/// Trimming at the start removes a prefix of NUL characters, and the first
/// character that stays is no NUL. `removed` is the length of that prefix.
pub proof fn lemma_trim_start_nul(text: Seq<char>) -> (removed: int)
    ensures
        0 <= removed <= text.len(),
        trim_start_nul(text) == text.subrange(removed, text.len() as int),
        forall|i: int| 0 <= i < removed ==> text[i] == '\0',
        removed < text.len() ==> text[removed] != '\0',
    decreases text.len(),
{
    if text.len() > 0 && text.first() == '\0' {
        let rest = text.drop_first();
        let inner = lemma_trim_start_nul(rest);
        assert(rest.subrange(inner, rest.len() as int) == text.subrange(
            inner + 1,
            text.len() as int,
        ));
        assert forall|i: int| 0 <= i < inner + 1 implies text[i] == '\0' by {
            if i > 0 {
                assert(text[i] == rest[i - 1]);
            }
        }
        if inner + 1 < text.len() {
            assert(text[inner + 1] == rest[inner]);
        }
        inner + 1
    } else {
        assert(text.subrange(0, text.len() as int) == text);
        0
    }
}

/// Trimming at the end removes a suffix of NUL characters, and the last
/// character that stays is no NUL. `kept` is the length of what stays.
pub proof fn lemma_trim_end_nul(text: Seq<char>) -> (kept: int)
    ensures
        0 <= kept <= text.len(),
        trim_end_nul(text) == text.subrange(0, kept),
        forall|i: int| kept <= i < text.len() ==> text[i] == '\0',
        0 < kept ==> text[kept - 1] != '\0',
    decreases text.len(),
{
    if text.len() > 0 && text.last() == '\0' {
        let rest = text.drop_last();
        let inner = lemma_trim_end_nul(rest);
        assert(rest.subrange(0, inner) == text.subrange(0, inner));
        assert forall|i: int| inner <= i < text.len() implies text[i] == '\0' by {
            if i < text.len() - 1 {
                assert(text[i] == rest[i]);
            }
        }
        if 0 < inner {
            assert(text[inner - 1] == rest[inner - 1]);
        }
        inner
    } else {
        assert(text.subrange(0, text.len() as int) == text);
        text.len() as int
    }
}

/// Trimming keeps one stretch of the text, from `bounds.0` up to `bounds.1`:
/// all that comes before and after it is NUL, and it neither starts nor ends
/// with a NUL.
pub proof fn lemma_trim_nul(text: Seq<char>) -> (bounds: (int, int))
    ensures
        0 <= bounds.0 <= bounds.1 <= text.len(),
        trim_nul(text) == text.subrange(bounds.0, bounds.1),
        forall|i: int| 0 <= i < bounds.0 ==> text[i] == '\0',
        forall|i: int| bounds.1 <= i < text.len() ==> text[i] == '\0',
        bounds.0 < bounds.1 ==> text[bounds.0] != '\0' && text[bounds.1 - 1] != '\0',
        trim_nul(text).len() > 0 ==> trim_nul(text).first() != '\0' && trim_nul(text).last()
            != '\0',
{
    let removed = lemma_trim_start_nul(text);
    let tail = text.subrange(removed, text.len() as int);
    let kept = lemma_trim_end_nul(tail);
    assert(tail.subrange(0, kept) == text.subrange(removed, removed + kept));
    assert forall|i: int| removed + kept <= i < text.len() implies text[i] == '\0' by {
        assert(text[i] == tail[i - removed]);
    }
    if kept > 0 {
        assert(tail[kept - 1] == text[removed + kept - 1]);
    }
    (removed, removed + kept)
}

/// The title is read from the sixteen title bytes and from nothing else:
/// images that agree on them carry the same title.
pub proof fn lemma_title_from_title_bytes(first: Seq<u8>, second: Seq<u8>)
    requires
        section_bytes(first, CartridgeSection::Title) == section_bytes(
            second,
            CartridgeSection::Title,
        ),
    ensures
        title_of(first) == title_of(second),
{
}

/// Parsing is a function of the image: two cartridges that hold the same
/// image carry the same header, field by field.
pub proof fn lemma_same_image_same_header(first: Cartridge, second: Cartridge)
    requires
        first.wf(),
        second.wf(),
        first.rom@ == second.rom@,
    ensures
        first.header@ == second.header@,
{
}

impl CartridgeSection {
    /// The offset of the section's first byte.
    pub open spec fn spec_first(self) -> usize {
        match self {
            CartridgeSection::EntryPoint => 0x100,
            CartridgeSection::NintendoLogo => 0x104,
            CartridgeSection::Title => 0x134,
            CartridgeSection::ManufacturerCode => 0x13F,
            CartridgeSection::CGBFlag => 0x143,
            CartridgeSection::NewLicenseeCode => 0x144,
            CartridgeSection::SGBFlag => 0x146,
            CartridgeSection::CartridgeType => 0x147,
            CartridgeSection::ROMSize => 0x148,
            CartridgeSection::RAMSize => 0x149,
            CartridgeSection::DestinationCode => 0x14A,
            CartridgeSection::OldLicenseeCode => 0x14B,
            CartridgeSection::MaskROMVersionNumber => 0x14C,
            CartridgeSection::HeaderChecksum => 0x14D,
            CartridgeSection::GlobalChecksum => 0x14E,
        }
    }

    /// The offset of the section's last byte.
    pub open spec fn spec_last(self) -> usize {
        match self {
            CartridgeSection::EntryPoint => 0x103,
            CartridgeSection::NintendoLogo => 0x133,
            CartridgeSection::Title => 0x143,
            CartridgeSection::ManufacturerCode => 0x142,
            CartridgeSection::CGBFlag => 0x143,
            CartridgeSection::NewLicenseeCode => 0x145,
            CartridgeSection::SGBFlag => 0x146,
            CartridgeSection::CartridgeType => 0x147,
            CartridgeSection::ROMSize => 0x148,
            CartridgeSection::RAMSize => 0x149,
            CartridgeSection::DestinationCode => 0x14A,
            CartridgeSection::OldLicenseeCode => 0x14B,
            CartridgeSection::MaskROMVersionNumber => 0x14C,
            CartridgeSection::HeaderChecksum => 0x14D,
            CartridgeSection::GlobalChecksum => 0x14F,
        }
    }

    /// The offset of the section's first byte.
    #[verifier::when_used_as_spec(spec_first)]
    pub fn first(self) -> (offset: usize)
        ensures
            offset == self.spec_first(),
    {
        match self {
            CartridgeSection::EntryPoint => 0x100,
            CartridgeSection::NintendoLogo => 0x104,
            CartridgeSection::Title => 0x134,
            CartridgeSection::ManufacturerCode => 0x13F,
            CartridgeSection::CGBFlag => 0x143,
            CartridgeSection::NewLicenseeCode => 0x144,
            CartridgeSection::SGBFlag => 0x146,
            CartridgeSection::CartridgeType => 0x147,
            CartridgeSection::ROMSize => 0x148,
            CartridgeSection::RAMSize => 0x149,
            CartridgeSection::DestinationCode => 0x14A,
            CartridgeSection::OldLicenseeCode => 0x14B,
            CartridgeSection::MaskROMVersionNumber => 0x14C,
            CartridgeSection::HeaderChecksum => 0x14D,
            CartridgeSection::GlobalChecksum => 0x14E,
        }
    }

    /// The offset of the section's last byte.
    #[verifier::when_used_as_spec(spec_last)]
    pub fn last(self) -> (offset: usize)
        ensures
            offset == self.spec_last(),
    {
        match self {
            CartridgeSection::EntryPoint => 0x103,
            CartridgeSection::NintendoLogo => 0x133,
            CartridgeSection::Title => 0x143,
            CartridgeSection::ManufacturerCode => 0x142,
            CartridgeSection::CGBFlag => 0x143,
            CartridgeSection::NewLicenseeCode => 0x145,
            CartridgeSection::SGBFlag => 0x146,
            CartridgeSection::CartridgeType => 0x147,
            CartridgeSection::ROMSize => 0x148,
            CartridgeSection::RAMSize => 0x149,
            CartridgeSection::DestinationCode => 0x14A,
            CartridgeSection::OldLicenseeCode => 0x14B,
            CartridgeSection::MaskROMVersionNumber => 0x14C,
            CartridgeSection::HeaderChecksum => 0x14D,
            CartridgeSection::GlobalChecksum => 0x14F,
        }
    }
}

impl View for CartridgeHeader {
    type V = HeaderView;

    open spec fn view(&self) -> HeaderView {
        HeaderView {
            entry_point: self.entry_point@,
            nintendo_logo: self.nintendo_logo@,
            title: self.title@,
            manufacturer_code: self.manufacturer_code@,
            cgb_flag: self.cgb_flag,
            new_licensee_code: self.new_licensee_code@,
            sgb_flag: self.sgb_flag,
            cartridge_type: self.cartridge_type,
            rom_size: self.rom_size,
            ram_size: self.ram_size,
            destination_code: self.destination_code,
            old_licensee_code: self.old_licensee_code,
            mask_rom_version_number: self.mask_rom_version_number,
            header_checksum: self.header_checksum,
            global_checksum: self.global_checksum,
        }
    }
}

/// Decodes bytes as UTF-8 with `String::from_utf8_lossy`, which replaces
/// each malformed sequence by U+FFFD. The result is a function of the bytes
/// alone; on well-formed UTF-8 it is the text that the bytes encode.
#[verifier::external_body]
fn decode_lossy(bytes: &[u8]) -> (text: String)
    ensures
        text@ == utf8_lossy(bytes@),
        vstd::utf8::valid_utf8(bytes@) ==> text@ == vstd::utf8::decode_utf8(bytes@),
{
    String::from_utf8_lossy(bytes).into_owned()
}

/// Removes the NUL characters at both ends of `text`.
fn trim_nul_chars(text: &str) -> (trimmed: String)
    ensures
        trimmed@ == trim_nul(text@),
{
    let length = text.unicode_len();
    let mut start: usize = 0;
    assert(text@.subrange(0, length as int) == text@);
    while start < length && text.get_char(start) == '\0'
        invariant
            start <= length == text@.len(),
            trim_start_nul(text@) == trim_start_nul(text@.subrange(start as int, length as int)),
        decreases length - start,
    {
        proof {
            let rest = text@.subrange(start as int, length as int);
            assert(rest.first() == '\0');
            assert(rest.drop_first() == text@.subrange(start + 1, length as int));
        }
        start += 1;
    }
    let ghost kept = text@.subrange(start as int, length as int);
    assert(trim_start_nul(text@) == kept) by {
        if kept.len() > 0 {
            assert(kept.first() == text@[start as int]);
        }
    }
    let mut end: usize = length;
    while end > start && text.get_char(end - 1) == '\0'
        invariant
            start <= end <= length == text@.len(),
            trim_end_nul(kept) == trim_end_nul(text@.subrange(start as int, end as int)),
        decreases end - start,
    {
        proof {
            let rest = text@.subrange(start as int, end as int);
            assert(rest.last() == '\0');
            assert(rest.drop_last() == text@.subrange(start as int, end - 1));
        }
        end -= 1;
    }
    proof {
        let rest = text@.subrange(start as int, end as int);
        if rest.len() > 0 {
            assert(rest.last() == text@[end - 1]);
        }
        assert(trim_end_nul(rest) == rest);
    }
    text.substring_char(start, end).to_owned()
}

/// Copies `N` bytes of `data`, starting at offset `first`.
fn copy_bytes<const N: usize>(data: &[u8], first: usize) -> (bytes: [u8; N])
    requires
        first + N <= data@.len(),
    ensures
        bytes@ == data@.subrange(first as int, first + N),
{
    let mut bytes = [0u8; N];
    let length = data.len();
    let mut i: usize = 0;
    while i < N
        invariant
            i <= N,
            first + N <= length == data@.len(),
            bytes@.len() == N,
            forall|k: int| 0 <= k < i ==> bytes@[k] == data@[first + k],
        decreases N - i,
    {
        bytes[i] = data[first + i];
        i += 1;
    }
    assert(bytes@ =~= data@.subrange(first as int, first + N));
    bytes
}

impl Cartridge {
    /// The image is long enough to hold a header, and the header is the one
    /// that the image carries.
    pub open spec fn wf(&self) -> bool {
        &&& self.rom@.len() >= HEADER_END
        &&& self.header@ == header_of(self.rom@)
    }

    /// The inclusive range of offsets that `section` occupies in an image.
    pub fn range_map(section: CartridgeSection) -> (range: RangeInclusive<usize>)
        ensures
            range@.start == section.spec_first(),
            range@.end == section.spec_last(),
            !range@.exhausted,
            0x100 <= range@.start <= range@.end < HEADER_END,
    {
        RangeInclusive::new(section.first(), section.last())
    }

    /// The title from the header.
    pub fn get_title(&self) -> (title: &String)
        ensures
            title == &self.header.title,
    {
        &self.header.title
    }

    /// The parsed header.
    pub fn get_header(&self) -> (header: &CartridgeHeader)
        ensures
            header == &self.header,
    {
        &self.header
    }

    /// Parses the header of the image `data`, read from the file named
    /// `filename`. Fails exactly when the image ends before the header does.
    /// No checksum is verified.
    pub fn load(filename: String, data: Vec<u8>) -> (loaded: Result<Cartridge, LoadError>)
        ensures
            data@.len() < HEADER_END <==> loaded is Err,
            loaded is Err ==> loaded == Err::<Cartridge, LoadError>(LoadError::TooShort),
            loaded is Ok ==> {
                let cartridge = loaded->Ok_0;
                &&& cartridge.filename == filename
                &&& cartridge.rom == data
                &&& cartridge.header@ == header_of(data@)
                &&& cartridge.wf()
                &&& title_is_trimmed(cartridge.header.title@)
                &&& is_ascii_bytes(section_bytes(data@, CartridgeSection::Title))
                    ==> cartridge.header.title@ == trim_nul(
                    ascii_text(section_bytes(data@, CartridgeSection::Title)),
                )
            },
    {
        if data.len() < HEADER_END {
            return Err(LoadError::TooShort);
        }
        let bytes = data.as_slice();
        let title_bytes = slice_subrange(
            bytes,
            CartridgeSection::Title.first(),
            CartridgeSection::Title.last() + 1,
        );
        let title_text = decode_lossy(title_bytes);
        proof {
            lemma_trim_nul(title_text@);
            if is_ascii_bytes(title_bytes@) {
                lemma_ascii_is_utf8(title_bytes@);
            }
        }
        let header = CartridgeHeader {
            entry_point: copy_bytes::<4>(bytes, CartridgeSection::EntryPoint.first()),
            nintendo_logo: copy_bytes::<48>(bytes, CartridgeSection::NintendoLogo.first()),
            title: trim_nul_chars(title_text.as_str()),
            manufacturer_code: copy_bytes::<4>(bytes, CartridgeSection::ManufacturerCode.first()),
            cgb_flag: bytes[CartridgeSection::CGBFlag.first()],
            new_licensee_code: copy_bytes::<2>(bytes, CartridgeSection::NewLicenseeCode.first()),
            sgb_flag: bytes[CartridgeSection::SGBFlag.first()],
            cartridge_type: bytes[CartridgeSection::CartridgeType.first()],
            rom_size: bytes[CartridgeSection::ROMSize.first()],
            ram_size: bytes[CartridgeSection::RAMSize.first()],
            destination_code: bytes[CartridgeSection::DestinationCode.first()],
            old_licensee_code: bytes[CartridgeSection::OldLicenseeCode.first()],
            mask_rom_version_number: bytes[CartridgeSection::MaskROMVersionNumber.first()],
            header_checksum: bytes[CartridgeSection::HeaderChecksum.first()],
            global_checksum: concatenate_bytes(
                bytes[CartridgeSection::GlobalChecksum.last()],
                bytes[CartridgeSection::GlobalChecksum.first()],
            ),
        };
        Ok(Cartridge { filename, header, rom: data })
    }

    /// The byte of the image at `address`, if the image reaches that far.
    pub fn read(&self, address: u16) -> (byte: Option<u8>)
        ensures
            byte == if address < self.rom@.len() {
                Some(self.rom@[address as int])
            } else {
                None
            },
    {
        let index = address as usize;
        if index < self.rom.len() {
            Some(self.rom[index])
        } else {
            None
        }
    }

    /// A write to the image: accepted, and without effect.
    pub fn write(&mut self, address: u16, value: u8)
        ensures
            *final(self) == *old(self),
    {
    }
}

} // verus!
