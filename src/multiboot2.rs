//! The tagged-stream handoff: a self-describing blob of length-prefixed,
//! 8-byte aligned tags that the bootloader leaves in memory.
use vstd::prelude::*;

use crate::boot_info::{BootInfo, FrameBufferInfo, MemoryRegion, PixelFormat};

verus! {

/// The value a Multiboot 2 bootloader passes to the kernel entry alongside
/// the information blob.
pub const MULTIBOOT2_BOOTLOADER_MAGIC: u32 = 0x36d76289;

/// The magic that opens the kernel's own Multiboot 2 header.
pub const MULTIBOOT2_MAGIC: u32 = 0xe85250d6;

/// The architecture field of the kernel's header: 32-bit protected mode i386.
pub const MULTIBOOT2_ARCHITECTURE_I386: u32 = 0;

/// The length in bytes of the kernel's header, end tag included.
pub const MULTIBOOT2_HEADER_LENGTH: u32 = 24;

/// The little-endian `u32` stored in `b` at `o`.
pub open spec fn u32_le(b: Seq<u8>, o: int) -> u32 {
    (b[o] as int + b[o + 1] as int * 0x100 + b[o + 2] as int * 0x1_0000 + b[o + 3] as int
        * 0x100_0000) as u32
}

/// The little-endian `u64` stored in `b` at `o`.
pub open spec fn u64_le(b: Seq<u8>, o: int) -> u64 {
    (u32_le(b, o) as int + u32_le(b, o + 4) as int * 0x1_0000_0000) as u64
}

/// Reads the little-endian `u32` at `o`.
fn read_u32(b: &[u8], o: usize) -> (r: u32)
    requires
        o + 4 <= b@.len(),
    ensures
        r == u32_le(b@, o as int),
{
    b[o] as u32 + b[o + 1] as u32 * 0x100 + b[o + 2] as u32 * 0x1_0000 + b[o + 3] as u32
        * 0x100_0000
}

/// Reads the little-endian `u64` at `o`.
fn read_u64(b: &[u8], o: usize) -> (r: u64)
    requires
        o + 8 <= b@.len(),
    ensures
        r == u64_le(b@, o as int),
{
    // the slice's length bounds `o + 4` within `usize`
    let _len = b.len();
    let lo = read_u32(b, o);
    let hi = read_u32(b, o + 4);
    lo as u64 + hi as u64 * 0x1_0000_0000
}

/// The `total_size` that the blob's header declares, or zero when the blob is
/// too short to hold a header.
pub open spec fn total_size(b: Seq<u8>) -> int {
    if b.len() >= 8 {
        u32_le(b, 0) as int
    } else {
        0
    }
}

/// How far the walk may read: the declared total size, but never past the
/// bytes that are actually there.
pub open spec fn walk_limit(b: Seq<u8>) -> int {
    if total_size(b) <= b.len() {
        total_size(b)
    } else {
        b.len() as int
    }
}

/// The type of the tag whose header starts at `o`.
pub open spec fn tag_type_at(b: Seq<u8>, o: int) -> u32 {
    u32_le(b, o)
}

/// The size that the tag whose header starts at `o` declares.
pub open spec fn tag_size_at(b: Seq<u8>, o: int) -> u32 {
    u32_le(b, o + 4)
}

/// The room a tag of `size` bytes takes: its size rounded up to 8.
pub open spec fn aligned_size(size: u32) -> int {
    ((size + 7) / 8) * 8
}

/// Whether the walk reads a tag at `o`: its header lies within the walk
/// limit and it is not the end tag (type zero).
pub open spec fn visits(b: Seq<u8>, o: int) -> bool {
    &&& 0 <= o
    &&& o + 8 <= walk_limit(b)
    &&& tag_type_at(b, o) != 0
}

/// Where the walk looks next after the tag at `o`.
pub open spec fn next_offset(b: Seq<u8>, o: int) -> int {
    o + aligned_size(tag_size_at(b, o))
}

/// The bytes left between `o` and the walk limit.
pub open spec fn remaining(b: Seq<u8>, o: int) -> int {
    if o <= walk_limit(b) {
        walk_limit(b) - o
    } else {
        0
    }
}

/// The offsets of the tags that the walk visits, starting at `o`, in order.
///
/// The walk ends at the end tag, at a header that would cross the walk
/// limit, or after a tag that declares size zero, which cannot be stepped
/// over.
pub open spec fn tag_walk(b: Seq<u8>, o: int) -> Seq<int>
    decreases remaining(b, o),
{
    if !visits(b, o) {
        seq![]
    } else if tag_size_at(b, o) == 0 {
        seq![o]
    } else {
        proof {
            lemma_aligned_size_bounds(tag_size_at(b, o));
        }
        seq![o].add(tag_walk(b, next_offset(b, o)))
    }
}

/// A tag of nonzero size takes at least 8 bytes, and never less than its size.
pub proof fn lemma_aligned_size_bounds(size: u32)
    ensures
        size <= aligned_size(size) < size + 8,
        size != 0 ==> aligned_size(size) >= 8,
        aligned_size(size) % 8 == 0,
{
    let s = size as int;
    assert(s <= ((s + 7) / 8) * 8 < s + 8) by (nonlinear_arith);
    assert(s >= 1 ==> ((s + 7) / 8) * 8 >= 8) by (nonlinear_arith);
    assert((((s + 7) / 8) * 8) % 8 == 0) by (nonlinear_arith);
}

/// The walk from the tag that a cursor stands on, or nothing past the end.
pub open spec fn cursor_walk(b: Seq<u8>, cursor: Option<usize>) -> Seq<int> {
    match cursor {
        Some(o) => tag_walk(b, o as int),
        None => seq![],
    }
}

/// The first offset among `tags` whose tag has type `code`.
pub open spec fn first_of_type(b: Seq<u8>, tags: Seq<int>, code: u32) -> Option<int>
    decreases tags.len(),
{
    if tags.len() == 0 {
        None
    } else if tag_type_at(b, tags[0]) == code {
        Some(tags[0])
    } else {
        first_of_type(b, tags.drop_first(), code)
    }
}

/// The room that a tag of `size` bytes takes in the stream: the next tag
/// starts `((size + 7) / 8) * 8` bytes after this one.
pub fn aligned_tag_size(size: u32) -> (r: u64)
    ensures
        r == ((size + 7) / 8) * 8,
        r == aligned_size(size),
{
    (size as u64 + 7) / 8 * 8
}

/// The types of the information tags a Multiboot 2 bootloader may emit.
#[derive(Debug, Clone, Copy, PartialEq, Eq, Structural)]
pub enum TagType {
    End,
    CommandLine,
    BootLoaderName,
    Module,
    BasicMemInfo,
    BiosBootDevice,
    MemoryMap,
    VbeInfo,
    FramebufferInfo,
    ElfSections,
    ApmTable,
    Efi32BitSystemTablePtr,
    Efi64BitSystemTablePtr,
    SmbiosTables,
    AcpiOldRsdp,
    AcpiNewRsdp,
    NetworkingInfo,
    EfiMemoryMap,
    EfiBootServicesNotExited,
    Efi32BitImageHandlePtr,
    Efi64BitImageHandlePtr,
    LoadBaseAddr,
}

impl TagType {
    /// The number that marks a tag of this type in the stream.
    pub open spec fn spec_code(self) -> u32 {
        match self {
            TagType::End => 0,
            TagType::CommandLine => 1,
            TagType::BootLoaderName => 2,
            TagType::Module => 3,
            TagType::BasicMemInfo => 4,
            TagType::BiosBootDevice => 5,
            TagType::MemoryMap => 6,
            TagType::VbeInfo => 7,
            TagType::FramebufferInfo => 8,
            TagType::ElfSections => 9,
            TagType::ApmTable => 10,
            TagType::Efi32BitSystemTablePtr => 11,
            TagType::Efi64BitSystemTablePtr => 12,
            TagType::SmbiosTables => 13,
            TagType::AcpiOldRsdp => 14,
            TagType::AcpiNewRsdp => 15,
            TagType::NetworkingInfo => 16,
            TagType::EfiMemoryMap => 17,
            TagType::EfiBootServicesNotExited => 18,
            TagType::Efi32BitImageHandlePtr => 19,
            TagType::Efi64BitImageHandlePtr => 20,
            TagType::LoadBaseAddr => 21,
        }
    }

    /// The number that marks a tag of this type in the stream.
    pub fn code(self) -> (r: u32)
        ensures
            r == self.spec_code(),
    {
        match self {
            TagType::End => 0,
            TagType::CommandLine => 1,
            TagType::BootLoaderName => 2,
            TagType::Module => 3,
            TagType::BasicMemInfo => 4,
            TagType::BiosBootDevice => 5,
            TagType::MemoryMap => 6,
            TagType::VbeInfo => 7,
            TagType::FramebufferInfo => 8,
            TagType::ElfSections => 9,
            TagType::ApmTable => 10,
            TagType::Efi32BitSystemTablePtr => 11,
            TagType::Efi64BitSystemTablePtr => 12,
            TagType::SmbiosTables => 13,
            TagType::AcpiOldRsdp => 14,
            TagType::AcpiNewRsdp => 15,
            TagType::NetworkingInfo => 16,
            TagType::EfiMemoryMap => 17,
            TagType::EfiBootServicesNotExited => 18,
            TagType::Efi32BitImageHandlePtr => 19,
            TagType::Efi64BitImageHandlePtr => 20,
            TagType::LoadBaseAddr => 21,
        }
    }
}

/// One tag of the kernel's own header (only the end tag is used).
#[derive(Debug, Clone, Copy, PartialEq, Eq, Structural)]
pub struct Multiboot2HeaderTag {
    pub tag_type: u16,
    pub flags: u16,
    pub size: u32,
}

/// The header by which the kernel image announces Multiboot 2 support.
#[derive(Debug, Clone, Copy, PartialEq, Eq, Structural)]
pub struct Multiboot2Header {
    pub magic: u32,
    pub architecture: u32,
    pub header_length: u32,
    pub checksum: u32,
    pub end_tag: Multiboot2HeaderTag,
}

impl Multiboot2Header {
    /// The kernel's header: magic, i386 architecture, its length, a checksum
    /// that makes the four fields sum to zero modulo 2^32, and an end tag.
    pub fn new() -> (r: Self)
        ensures
            r.magic == MULTIBOOT2_MAGIC,
            r.architecture == MULTIBOOT2_ARCHITECTURE_I386,
            r.header_length == MULTIBOOT2_HEADER_LENGTH,
            (r.magic + r.architecture + r.header_length + r.checksum) % 0x1_0000_0000 == 0,
            r.end_tag == (Multiboot2HeaderTag { tag_type: 0, flags: 0, size: 8 }),
    {
        let checksum = 0u32.wrapping_sub(MULTIBOOT2_MAGIC).wrapping_sub(
            MULTIBOOT2_ARCHITECTURE_I386,
        ).wrapping_sub(MULTIBOOT2_HEADER_LENGTH);
        Multiboot2Header {
            magic: MULTIBOOT2_MAGIC,
            architecture: MULTIBOOT2_ARCHITECTURE_I386,
            header_length: MULTIBOOT2_HEADER_LENGTH,
            checksum,
            end_tag: Multiboot2HeaderTag { tag_type: 0, flags: 0, size: 8 },
        }
    }
}

/// The header every tag starts with.
#[derive(Debug, Clone, Copy, PartialEq, Eq, Structural)]
pub struct Tag {
    pub tag_type: u32,
    pub size: u32,
}

/// The header of the information blob; the tags follow it.
#[derive(Debug, Clone, Copy, PartialEq, Eq, Structural)]
pub struct Multiboot2Info {
    pub total_size: u32,
    pub reserved: u32,
}

/// The fixed part of a framebuffer tag; colour information follows it.
#[derive(Debug, Clone, Copy, PartialEq, Eq, Structural)]
pub struct FramebufferTag {
    pub tag_type: u32,
    pub size: u32,
    pub addr: u64,
    pub pitch: u32,
    pub width: u32,
    pub height: u32,
    pub bpp: u8,
    pub framebuffer_type: u8,
    pub reserved: u8,
}

/// The number of bytes of a framebuffer tag's fixed part.
pub const FRAMEBUFFER_TAG_LEN: usize = 31;

/// The framebuffer tag whose header starts at `o`, when its fixed part lies
/// within the walk limit.
pub open spec fn framebuffer_tag_at(b: Seq<u8>, o: int) -> Option<FramebufferTag> {
    if 0 <= o && o + FRAMEBUFFER_TAG_LEN <= walk_limit(b) {
        Some(
            FramebufferTag {
                tag_type: u32_le(b, o),
                size: u32_le(b, o + 4),
                addr: u64_le(b, o + 8),
                pitch: u32_le(b, o + 16),
                width: u32_le(b, o + 20),
                height: u32_le(b, o + 24),
                bpp: b[o + 28],
                framebuffer_type: b[o + 29],
                reserved: b[o + 30],
            },
        )
    } else {
        None
    }
}

impl FramebufferTag {
    /// Whole bytes per pixel: the bit depth divided by 8.
    pub open spec fn spec_bytes_per_pixel(&self) -> u32 {
        (self.bpp / 8) as u32
    }

    /// The shared framebuffer record. The layout is taken to be `Rgb`
    /// whatever the tag's colour information says. A bit depth under 8 gives
    /// no whole bytes per pixel, and then no stride: the framebuffer is absent.
    pub open spec fn spec_info(&self) -> Option<FrameBufferInfo> {
        if self.spec_bytes_per_pixel() == 0 {
            None
        } else {
            Some(
                FrameBufferInfo {
                    width: self.width as usize,
                    height: self.height as usize,
                    stride: (self.pitch / self.spec_bytes_per_pixel()) as usize,
                    pixel_format: PixelFormat::Rgb,
                    bytes_per_pixel: self.spec_bytes_per_pixel() as usize,
                    physical_address: self.addr as usize,
                },
            )
        }
    }

    /// Projects this tag onto the shared record (see `spec_info`).
    pub fn info(&self) -> (r: Option<FrameBufferInfo>)
        ensures
            r == self.spec_info(),
    {
        let bytes_per_pixel = (self.bpp / 8) as u32;
        if bytes_per_pixel == 0 {
            None
        } else {
            Some(
                FrameBufferInfo {
                    width: self.width as usize,
                    height: self.height as usize,
                    stride: (self.pitch / bytes_per_pixel) as usize,
                    pixel_format: PixelFormat::Rgb,
                    bytes_per_pixel: bytes_per_pixel as usize,
                    physical_address: self.addr as usize,
                },
            )
        }
    }
}

/// One entry of the memory-map tag.
#[derive(Debug, Clone, Copy, PartialEq, Eq, Structural)]
pub struct MemoryMapEntry {
    pub base_addr: u64,
    pub length: u64,
    pub entry_type: u32,
    pub reserved: u32,
}

/// The fixed part of the memory-map tag; its entries follow it.
#[derive(Debug, Clone, Copy, PartialEq, Eq, Structural)]
pub struct MemoryMapTag {
    pub tag_type: u32,
    pub size: u32,
    pub entry_size: u32,
    pub entry_version: u32,
}

/// The header of an ACPI RSDP tag; a copy of the RSDP follows it.
#[derive(Debug, Clone, Copy, PartialEq, Eq, Structural)]
pub struct RsdpTag {
    pub tag_type: u32,
    pub size: u32,
}

/// The address `base + offset` in a 64-bit address space.
pub open spec fn address_at(base: u64, offset: int) -> u64 {
    ((base + offset) % 0x1_0000_0000_0000_0000) as u64
}

/// The information blob that a Multiboot 2 bootloader left in memory: its
/// bytes, and the physical address at which they start.
#[derive(Clone, Copy)]
pub struct Multiboot2BootInfo<'a> {
    pub base: u64,
    pub info: &'a [u8],
}

impl<'a> Multiboot2BootInfo<'a> {
    /// Wraps the blob `info` that starts at physical address `base`.
    pub fn new(base: u64, info: &'a [u8]) -> (r: Self)
        ensures
            r.base == base,
            r.info@ == info@,
    {
        Multiboot2BootInfo { base, info }
    }

    /// The offset of the first tag of type `code` that the walk visits.
    pub open spec fn spec_find(&self, code: u32) -> Option<int> {
        first_of_type(self.info@, tag_walk(self.info@, 8), code)
    }

    /// The framebuffer tag, if the walk visits one and its fixed part is there.
    pub open spec fn spec_framebuffer_tag(&self) -> Option<FramebufferTag> {
        match self.spec_find(8) {
            Some(o) => framebuffer_tag_at(self.info@, o),
            None => None,
        }
    }

    /// The blob's header, if the blob is long enough to hold one.
    pub fn header(&self) -> (r: Option<Multiboot2Info>)
        ensures
            r == (if self.info@.len() >= 8 {
                Some(
                    Multiboot2Info {
                        total_size: u32_le(self.info@, 0),
                        reserved: u32_le(self.info@, 4),
                    },
                )
            } else {
                None
            }),
    {
        if self.info.len() >= 8 {
            Some(Multiboot2Info { total_size: read_u32(self.info, 0), reserved: read_u32(self.info, 4) })
        } else {
            None
        }
    }

    /// How far the walk may read (see `walk_limit`).
    fn limit(&self) -> (r: usize)
        ensures
            r == walk_limit(self.info@),
    {
        match self.header() {
            Some(h) => {
                if h.total_size as usize <= self.info.len() {
                    h.total_size as usize
                } else {
                    self.info.len()
                }
            },
            None => 0,
        }
    }

    /// The header of the tag at `offset`, if the walk visits a tag there.
    pub fn tag_at(&self, offset: usize) -> (r: Option<Tag>)
        ensures
            r == (if visits(self.info@, offset as int) {
                Some(
                    Tag {
                        tag_type: tag_type_at(self.info@, offset as int),
                        size: tag_size_at(self.info@, offset as int),
                    },
                )
            } else {
                None
            }),
    {
        let limit = self.limit();
        if offset > limit || limit - offset < 8 {
            return None;
        }
        let tag_type = read_u32(self.info, offset);
        if tag_type == 0 {
            None
        } else {
            Some(Tag { tag_type, size: read_u32(self.info, offset + 4) })
        }
    }

    /// The offset of the first tag of the walk, if there is one.
    pub fn first_tag(&self) -> (r: Option<usize>)
        ensures
            r == (if visits(self.info@, 8) {
                Some(8usize)
            } else {
                None
            }),
    {
        match self.tag_at(8) {
            Some(_) => Some(8),
            None => None,
        }
    }

    /// The offset of the tag that the walk visits after the one at `offset`.
    ///
    /// The next tag starts `((size + 7) / 8) * 8` bytes further on. There is
    /// none when `offset` holds no visited tag, when that tag declares size
    /// zero, or when no tag is visited at the next offset.
    pub fn next_tag(&self, offset: usize) -> (r: Option<usize>)
        ensures
            match r {
                Some(n) => {
                    &&& visits(self.info@, offset as int)
                    &&& tag_size_at(self.info@, offset as int) != 0
                    &&& n == offset + ((tag_size_at(self.info@, offset as int) + 7) / 8) * 8
                    &&& n == next_offset(self.info@, offset as int)
                    &&& visits(self.info@, n as int)
                },
                None => !(visits(self.info@, offset as int) && tag_size_at(self.info@, offset as int)
                    != 0 && visits(self.info@, next_offset(self.info@, offset as int))),
            },
    {
        let tag = match self.tag_at(offset) {
            Some(t) => t,
            None => return None,
        };
        if tag.size == 0 {
            return None;
        }
        let step = aligned_tag_size(tag.size);
        let limit = self.limit();
        if step > (limit - offset) as u64 {
            return None;
        }
        let next = offset + step as usize;
        match self.tag_at(next) {
            Some(_) => Some(next),
            None => None,
        }
    }

    /// The offset of the first tag of type `tag_type` that the walk visits.
    pub fn get_tag(&self, tag_type: TagType) -> (r: Option<usize>)
        ensures
            match r {
                Some(o) => {
                    &&& self.spec_find(tag_type.spec_code()) == Some(o as int)
                    &&& visits(self.info@, o as int)
                },
                None => self.spec_find(tag_type.spec_code()) is None,
            },
    {
        let code = tag_type.code();
        let ghost b = self.info@;
        let mut cursor = self.first_tag();
        proof {
            lemma_walk_unfold(b, 8);
        }
        loop
            invariant
                b == self.info@,
                code == tag_type.spec_code(),
                first_of_type(b, tag_walk(b, 8), code) == first_of_type(
                    b,
                    cursor_walk(b, cursor),
                    code,
                ),
                cursor matches Some(o) ==> visits(b, o as int),
            decreases cursor_walk(b, cursor).len(),
        {
            match cursor {
                None => {
                    return None;
                },
                Some(o) => {
                    let tag = self.tag_at(o).unwrap();
                    let next = self.next_tag(o);
                    proof {
                        lemma_walk_unfold(b, o as int);
                        let rest = cursor_walk(b, next);
                        assert((seq![o as int] + rest).drop_first() =~= rest);
                    }
                    if tag.tag_type == code {
                        return Some(o);
                    }
                    cursor = next;
                },
            }
        }
    }

    /// Decodes the fixed part of the framebuffer tag at `offset`.
    pub fn framebuffer_tag(&self, offset: usize) -> (r: Option<FramebufferTag>)
        ensures
            r == framebuffer_tag_at(self.info@, offset as int),
    {
        let limit = self.limit();
        if offset > limit || limit - offset < FRAMEBUFFER_TAG_LEN {
            return None;
        }
        let b = self.info;
        Some(
            FramebufferTag {
                tag_type: read_u32(b, offset),
                size: read_u32(b, offset + 4),
                addr: read_u64(b, offset + 8),
                pitch: read_u32(b, offset + 16),
                width: read_u32(b, offset + 20),
                height: read_u32(b, offset + 24),
                bpp: b[offset + 28],
                framebuffer_type: b[offset + 29],
                reserved: b[offset + 30],
            },
        )
    }

    /// The framebuffer tag, if the walk visits one and its fixed part is there.
    fn find_framebuffer_tag(&self) -> (r: Option<FramebufferTag>)
        ensures
            r == self.spec_framebuffer_tag(),
    {
        match self.get_tag(TagType::FramebufferInfo) {
            Some(o) => self.framebuffer_tag(o),
            None => None,
        }
    }
}

/// The walk from a visited tag: the tag itself, then the walk from the next
/// visited tag, if any.
pub proof fn lemma_walk_unfold(b: Seq<u8>, o: int)
    ensures
        visits(b, o) ==> tag_walk(b, o) == seq![o].add(
            if tag_size_at(b, o) != 0 && visits(b, next_offset(b, o)) {
                tag_walk(b, next_offset(b, o))
            } else {
                Seq::<int>::empty()
            },
        ),
        !visits(b, o) ==> tag_walk(b, o) == Seq::<int>::empty(),
{
    if visits(b, o) {
        if tag_size_at(b, o) == 0 {
            assert(seq![o] =~= seq![o].add(Seq::<int>::empty()));
        } else if !visits(b, next_offset(b, o)) {
            assert(tag_walk(b, next_offset(b, o)) =~= Seq::<int>::empty());
            assert(seq![o] =~= seq![o].add(Seq::<int>::empty()));
        }
    }
}

impl<'a> BootInfo for Multiboot2BootInfo<'a> {
    open spec fn spec_framebuffer_info(&self) -> Option<FrameBufferInfo> {
        match self.spec_framebuffer_tag() {
            Some(t) => t.spec_info(),
            None => None,
        }
    }

    open spec fn spec_framebuffer_address(&self) -> Option<u64> {
        match self.spec_framebuffer_tag() {
            Some(t) => Some(t.addr),
            None => None,
        }
    }

    open spec fn spec_memory_regions(&self) -> Seq<MemoryRegion> {
        Seq::empty()
    }

    /// The RSDP copy inside the new-format ACPI tag if there is one, else the
    /// one inside the old-format tag; the copy starts right after the tag's
    /// 8-byte header.
    open spec fn spec_rsdp_address(&self) -> Option<u64> {
        match self.spec_find(15) {
            Some(o) => Some(address_at(self.base, o + 8)),
            None => match self.spec_find(14) {
                Some(o) => Some(address_at(self.base, o + 8)),
                None => None,
            },
        }
    }

    open spec fn spec_command_line(&self) -> Option<Seq<char>> {
        None
    }

    fn framebuffer_info(&self) -> (r: Option<FrameBufferInfo>) {
        match self.find_framebuffer_tag() {
            Some(t) => t.info(),
            None => None,
        }
    }

    fn framebuffer_address(&self) -> (r: Option<u64>) {
        match self.find_framebuffer_tag() {
            Some(t) => Some(t.addr),
            None => None,
        }
    }

    fn memory_regions(&self) -> (r: &[MemoryRegion]) {
        &[]
    }

    fn rsdp_address(&self) -> (r: Option<u64>) {
        let len = self.info.len();
        if let Some(o) = self.get_tag(TagType::AcpiNewRsdp) {
            return Some(self.base.wrapping_add((o + 8) as u64));
        }
        if let Some(o) = self.get_tag(TagType::AcpiOldRsdp) {
            return Some(self.base.wrapping_add((o + 8) as u64));
        }
        None
    }

    fn command_line(&self) -> (r: Option<&str>) {
        None
    }
}

/// The offset reached from `o` after stepping over `i` tags by their
/// rounded-up sizes.
pub open spec fn chain_offset(b: Seq<u8>, o: int, i: nat) -> int
    decreases i,
{
    if i == 0 {
        o
    } else {
        chain_offset(b, next_offset(b, o), (i - 1) as nat)
    }
}

/// The offsets of every walk rise strictly, and none lies before the start.
pub proof fn lemma_walk_increasing(b: Seq<u8>, o: int)
    ensures
        forall|i: int| 0 <= i < tag_walk(b, o).len() ==> tag_walk(b, o)[i] >= o,
        forall|i: int, j: int|
            0 <= i < j < tag_walk(b, o).len() ==> tag_walk(b, o)[i] < tag_walk(b, o)[j],
    decreases remaining(b, o),
{
    if visits(b, o) && tag_size_at(b, o) != 0 {
        let n = next_offset(b, o);
        lemma_aligned_size_bounds(tag_size_at(b, o));
        lemma_walk_increasing(b, n);
        let w = tag_walk(b, o);
        let rest = tag_walk(b, n);
        assert(w == seq![o].add(rest));
        assert forall|i: int| 0 <= i < w.len() implies w[i] >= o by {
            if i > 0 {
                assert(w[i] == rest[i - 1]);
            }
        }
        assert forall|i: int, j: int| 0 <= i < j < w.len() implies w[i] < w[j] by {
            assert(w[j] == rest[j - 1]);
            if i > 0 {
                assert(w[i] == rest[i - 1]);
            }
        }
    }
}

/// The walk from `o` over a chain of `k` tags that ends in an end tag.
proof fn lemma_walk_chain(b: Seq<u8>, o: int, k: nat)
    requires
        forall|i: nat|
            i < k ==> visits(b, #[trigger] chain_offset(b, o, i)) && tag_size_at(
                b,
                chain_offset(b, o, i),
            ) != 0,
        0 <= chain_offset(b, o, k),
        chain_offset(b, o, k) + 8 <= walk_limit(b),
        tag_type_at(b, chain_offset(b, o, k)) == 0,
    ensures
        tag_walk(b, o) =~= Seq::new(k, |i: int| chain_offset(b, o, i as nat)),
    decreases k,
{
    if k == 0 {
        assert(!visits(b, o));
    } else {
        assert(chain_offset(b, o, 0) == o);
        let n = next_offset(b, o);
        assert forall|i: nat| i < (k - 1) as nat implies visits(b, #[trigger] chain_offset(b, n, i))
            && tag_size_at(b, chain_offset(b, n, i)) != 0 by {
            assert(chain_offset(b, o, i + 1) == chain_offset(b, n, i));
        }
        assert(chain_offset(b, o, k) == chain_offset(b, n, (k - 1) as nat));
        lemma_walk_chain(b, n, (k - 1) as nat);
        let rest = Seq::new((k - 1) as nat, |i: int| chain_offset(b, n, i as nat));
        assert forall|i: int| 0 <= i < k implies #[trigger] seq![o].add(rest)[i] == chain_offset(
            b,
            o,
            i as nat,
        ) by {
            if i > 0 {
                assert(chain_offset(b, o, i as nat) == chain_offset(b, n, (i - 1) as nat));
            }
        }
    }
}

/// Termination of the tag walk. When stepping from offset 8 by rounded-up
/// declared sizes passes `k` tags of nonzero type and size and then reaches
/// an end tag whose header lies within the total size, the walk visits
/// exactly those `k` tags, each once and in rising order, and then stops.
pub proof fn lemma_walk_reaches_end_tag(b: Seq<u8>, k: nat)
    requires
        forall|i: nat|
            i < k ==> visits(b, #[trigger] chain_offset(b, 8, i)) && tag_size_at(
                b,
                chain_offset(b, 8, i),
            ) != 0,
        0 <= chain_offset(b, 8, k),
        chain_offset(b, 8, k) + 8 <= walk_limit(b),
        tag_type_at(b, chain_offset(b, 8, k)) == 0,
    ensures
        tag_walk(b, 8) == Seq::new(k, |i: int| chain_offset(b, 8, i as nat)),
        forall|i: int, j: int|
            0 <= i < j < tag_walk(b, 8).len() ==> tag_walk(b, 8)[i] < tag_walk(b, 8)[j],
{
    lemma_walk_chain(b, 8, k);
    lemma_walk_increasing(b, 8);
}

/// What the Multiboot 2 entry does with the magic it was handed.
#[derive(Debug, Clone, Copy, PartialEq, Eq, Structural)]
pub enum Handoff {
    /// Build the adapter over the information blob and start the kernel.
    KernelInit,
    /// Halt for good without touching the blob pointer.
    Halt,
}

/// Checks the magic handed to the Multiboot 2 entry. Anything but the
/// bootloader magic means the blob pointer cannot be trusted: the entry
/// halts before it builds an adapter or reads the blob.
pub fn multiboot2_handoff(magic: u32) -> (r: Handoff)
    ensures
        magic == MULTIBOOT2_BOOTLOADER_MAGIC <==> r == Handoff::KernelInit,
        magic != MULTIBOOT2_BOOTLOADER_MAGIC <==> r == Handoff::Halt,
{
    if magic == MULTIBOOT2_BOOTLOADER_MAGIC {
        Handoff::KernelInit
    } else {
        Handoff::Halt
    }
}

} // verus!
