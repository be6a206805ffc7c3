//! The protocol-independent view of what the bootloader handed over, and the
//! adapters that project each handoff protocol onto it.
use vstd::prelude::*;

use crate::multiboot2::Multiboot2BootInfo;

verus! {

/// A linear framebuffer: where it lies and how its pixels are laid out.
///
/// `stride` counts pixels per row, not bytes; a row may carry padding.
#[derive(Debug, Clone, Copy, PartialEq, Eq, Structural)]
pub struct FrameBufferInfo {
    pub width: usize,
    pub height: usize,
    pub stride: usize,
    pub pixel_format: PixelFormat,
    pub bytes_per_pixel: usize,
    pub physical_address: usize,
}

/// How the colour channels of one pixel are laid out.
#[derive(Debug, Clone, Copy, PartialEq, Eq, Structural)]
pub enum PixelFormat {
    Rgb,
    Bgr,
    U8,
    Unknown,
}

/// What a physical memory range is used for.
#[derive(Debug, Clone, Copy, PartialEq, Eq, Structural)]
pub enum MemoryRegionType {
    Usable,
    Reserved,
    AcpiReclaimable,
    AcpiNvs,
    BadMemory,
    BootloaderReclaimable,
    KernelAndModules,
    Framebuffer,
}

/// The physical range `start..end` (end exclusive) and its use.
///
/// Regions are neither sorted nor checked for overlap here.
#[derive(Debug, Clone, Copy, PartialEq, Eq, Structural)]
pub struct MemoryRegion {
    pub start: u64,
    pub end: u64,
    pub region_type: MemoryRegionType,
}

impl MemoryRegion {
    /// A region is well formed when it does not end before it starts.
    pub open spec fn wf(&self) -> bool {
        self.start <= self.end
    }
}

/// The view of an optional string as the characters it holds.
pub open spec fn str_view(s: Option<&str>) -> Option<Seq<char>> {
    match s {
        Some(t) => Some(t@),
        None => None,
    }
}

/// The five facts every handoff protocol is asked for. A fact that the
/// protocol did not supply is absent (`None`, or no regions), never a
/// placeholder value.
pub trait BootInfo {
    spec fn spec_framebuffer_info(&self) -> Option<FrameBufferInfo>;

    spec fn spec_framebuffer_address(&self) -> Option<u64>;

    spec fn spec_memory_regions(&self) -> Seq<MemoryRegion>;

    spec fn spec_rsdp_address(&self) -> Option<u64>;

    spec fn spec_command_line(&self) -> Option<Seq<char>>;

    /// The framebuffer, if the bootloader set one up.
    fn framebuffer_info(&self) -> (r: Option<FrameBufferInfo>)
        ensures
            r == self.spec_framebuffer_info(),
    ;

    /// The framebuffer's physical address, if the bootloader set one up.
    fn framebuffer_address(&self) -> (r: Option<u64>)
        ensures
            r == self.spec_framebuffer_address(),
    ;

    /// The memory map, as far as this protocol's adapter reports it.
    fn memory_regions(&self) -> (r: &[MemoryRegion])
        ensures
            r@ == self.spec_memory_regions(),
    ;

    /// The address of the ACPI root system description pointer.
    fn rsdp_address(&self) -> (r: Option<u64>)
        ensures
            r == self.spec_rsdp_address(),
    ;

    /// The kernel command line.
    fn command_line(&self) -> (r: Option<&str>)
        ensures
            str_view(r) == self.spec_command_line(),
    ;
}

/// The pixel layout that the handshake protocol's colour masks suggest.
///
/// Only two layouts are recognised: memory model 1 with an 8-bit red channel
/// at bit 16 is `Rgb`, and memory model 1 with the red channel at bit 0 is
/// `Bgr`. Every other combination is `Unknown`.
pub fn pixel_format_from_masks(memory_model: u8, red_mask_size: u8, red_mask_shift: u8) -> (r:
    PixelFormat)
    ensures
        memory_model == 1 && red_mask_size == 8 && red_mask_shift == 16 ==> r == PixelFormat::Rgb,
        memory_model == 1 && red_mask_shift == 0 ==> r == PixelFormat::Bgr,
        !(memory_model == 1 && red_mask_size == 8 && red_mask_shift == 16) && !(memory_model == 1
            && red_mask_shift == 0) ==> r == PixelFormat::Unknown,
{
    if memory_model == 1 && red_mask_size == 8 && red_mask_shift == 16 {
        PixelFormat::Rgb
    } else if memory_model == 1 && red_mask_shift == 0 {
        PixelFormat::Bgr
    } else {
        PixelFormat::Unknown
    }
}

/// The pixel layout of [`pixel_format_from_masks`], as a spec function.
pub open spec fn masks_pixel_format(memory_model: u8, red_mask_size: u8, red_mask_shift: u8) -> PixelFormat {
    if memory_model == 1 && red_mask_size == 8 && red_mask_shift == 16 {
        PixelFormat::Rgb
    } else if memory_model == 1 && red_mask_shift == 0 {
        PixelFormat::Bgr
    } else {
        PixelFormat::Unknown
    }
}

/// A framebuffer as the handshake protocol describes it.
#[derive(Debug, Clone, Copy, PartialEq, Eq, Structural)]
pub struct LimineFramebuffer {
    pub address: u64,
    pub width: u64,
    pub height: u64,
    pub pitch: u64,
    pub bpp: u16,
    pub memory_model: u8,
    pub red_mask_size: u8,
    pub red_mask_shift: u8,
    pub green_mask_size: u8,
    pub green_mask_shift: u8,
    pub blue_mask_size: u8,
    pub blue_mask_shift: u8,
}

impl LimineFramebuffer {
    /// Whole bytes per pixel: the bit depth rounded up to a byte.
    pub open spec fn spec_bytes_per_pixel(&self) -> usize {
        ((self.bpp + 7) / 8) as usize
    }

    /// The shared framebuffer record. A bit depth of zero gives no whole
    /// bytes per pixel, and then no stride can be derived: the framebuffer
    /// cannot be described and is absent.
    pub open spec fn spec_info(&self) -> Option<FrameBufferInfo> {
        if self.bpp == 0 {
            None
        } else {
            Some(
                FrameBufferInfo {
                    width: self.width as usize,
                    height: self.height as usize,
                    stride: ((self.pitch as usize) / self.spec_bytes_per_pixel()) as usize,
                    pixel_format: masks_pixel_format(
                        self.memory_model,
                        self.red_mask_size,
                        self.red_mask_shift,
                    ),
                    bytes_per_pixel: self.spec_bytes_per_pixel(),
                    physical_address: self.address as usize,
                },
            )
        }
    }

    /// Projects this framebuffer onto the shared record (see `spec_info`).
    pub fn info(&self) -> (r: Option<FrameBufferInfo>)
        ensures
            r == self.spec_info(),
    {
        if self.bpp == 0 {
            None
        } else {
            let bytes_per_pixel: usize = (self.bpp as usize + 7) / 8;
            let pixel_format = pixel_format_from_masks(
                self.memory_model,
                self.red_mask_size,
                self.red_mask_shift,
            );
            Some(
                FrameBufferInfo {
                    width: self.width as usize,
                    height: self.height as usize,
                    stride: self.pitch as usize / bytes_per_pixel,
                    pixel_format,
                    bytes_per_pixel,
                    physical_address: self.address as usize,
                },
            )
        }
    }
}

/// What the handshake protocol reported, once its answers have been read.
pub struct LimineBootInfo<'a> {
    pub framebuffer: Option<LimineFramebuffer>,
    pub memory_map: &'a [MemoryRegion],
    pub rsdp: Option<u64>,
    pub cmdline: Option<&'a str>,
}

impl<'a> BootInfo for LimineBootInfo<'a> {
    open spec fn spec_framebuffer_info(&self) -> Option<FrameBufferInfo> {
        match self.framebuffer {
            Some(fb) => fb.spec_info(),
            None => None,
        }
    }

    open spec fn spec_framebuffer_address(&self) -> Option<u64> {
        match self.framebuffer {
            Some(fb) => Some(fb.address),
            None => None,
        }
    }

    open spec fn spec_memory_regions(&self) -> Seq<MemoryRegion> {
        self.memory_map@
    }

    open spec fn spec_rsdp_address(&self) -> Option<u64> {
        self.rsdp
    }

    open spec fn spec_command_line(&self) -> Option<Seq<char>> {
        str_view(self.cmdline)
    }

    fn framebuffer_info(&self) -> (r: Option<FrameBufferInfo>) {
        match &self.framebuffer {
            Some(fb) => fb.info(),
            None => None,
        }
    }

    fn framebuffer_address(&self) -> (r: Option<u64>) {
        match &self.framebuffer {
            Some(fb) => Some(fb.address),
            None => None,
        }
    }

    fn memory_regions(&self) -> (r: &[MemoryRegion]) {
        self.memory_map
    }

    fn rsdp_address(&self) -> (r: Option<u64>) {
        self.rsdp
    }

    fn command_line(&self) -> (r: Option<&str>) {
        self.cmdline
    }
}

/// The pixel layouts that the direct-struct protocol names.
#[derive(Debug, Clone, Copy, PartialEq, Eq, Structural)]
pub enum DirectPixelFormat {
    Rgb,
    Bgr,
    U8,
    /// A layout given only by the bit positions of the three channels.
    Unknown { red_position: u8, green_position: u8, blue_position: u8 },
    /// A layout that the protocol added after this library was written.
    Unrecognized,
}

impl DirectPixelFormat {
    /// The shared classification: each named layout maps to its namesake,
    /// every other layout to `Unknown`.
    pub fn pixel_format(&self) -> (r: PixelFormat)
        ensures
            *self == DirectPixelFormat::Rgb ==> r == PixelFormat::Rgb,
            *self == DirectPixelFormat::Bgr ==> r == PixelFormat::Bgr,
            *self == DirectPixelFormat::U8 ==> r == PixelFormat::U8,
            self is Unknown || self is Unrecognized ==> r == PixelFormat::Unknown,
    {
        match self {
            DirectPixelFormat::Rgb => PixelFormat::Rgb,
            DirectPixelFormat::Bgr => PixelFormat::Bgr,
            DirectPixelFormat::U8 => PixelFormat::U8,
            _ => PixelFormat::Unknown,
        }
    }

    /// The shared classification, as a spec function.
    pub open spec fn spec_pixel_format(&self) -> PixelFormat {
        match self {
            DirectPixelFormat::Rgb => PixelFormat::Rgb,
            DirectPixelFormat::Bgr => PixelFormat::Bgr,
            DirectPixelFormat::U8 => PixelFormat::U8,
            _ => PixelFormat::Unknown,
        }
    }
}

/// A framebuffer as the direct-struct protocol describes it.
#[derive(Debug, Clone, Copy, PartialEq, Eq, Structural)]
pub struct DirectFrameBuffer {
    pub buffer_start: u64,
    pub byte_len: usize,
    pub width: usize,
    pub height: usize,
    pub pixel_format: DirectPixelFormat,
    pub bytes_per_pixel: usize,
    pub stride: usize,
}

/// The boot information structure of the direct-struct protocol, as far as
/// this layer reads it.
#[derive(Debug, Clone, Copy, PartialEq, Eq, Structural)]
pub struct DirectBootInfo {
    pub framebuffer: Option<DirectFrameBuffer>,
    pub rsdp_addr: Option<u64>,
}

impl DirectFrameBuffer {
    /// The shared record: every field is projected as it stands.
    pub open spec fn spec_info(&self) -> FrameBufferInfo {
        FrameBufferInfo {
            width: self.width,
            height: self.height,
            stride: self.stride,
            pixel_format: self.pixel_format.spec_pixel_format(),
            bytes_per_pixel: self.bytes_per_pixel,
            physical_address: self.buffer_start as usize,
        }
    }
}

impl BootInfo for DirectBootInfo {
    open spec fn spec_framebuffer_info(&self) -> Option<FrameBufferInfo> {
        match self.framebuffer {
            Some(fb) => Some(fb.spec_info()),
            None => None,
        }
    }

    open spec fn spec_framebuffer_address(&self) -> Option<u64> {
        match self.framebuffer {
            Some(fb) => Some(fb.buffer_start),
            None => None,
        }
    }

    /// The protocol's memory map is not carried into the shared form here.
    open spec fn spec_memory_regions(&self) -> Seq<MemoryRegion> {
        Seq::empty()
    }

    open spec fn spec_rsdp_address(&self) -> Option<u64> {
        self.rsdp_addr
    }

    /// The protocol does not pass a command line.
    open spec fn spec_command_line(&self) -> Option<Seq<char>> {
        None
    }

    fn framebuffer_info(&self) -> (r: Option<FrameBufferInfo>) {
        match &self.framebuffer {
            Some(fb) => Some(
                FrameBufferInfo {
                    width: fb.width,
                    height: fb.height,
                    stride: fb.stride,
                    pixel_format: fb.pixel_format.pixel_format(),
                    bytes_per_pixel: fb.bytes_per_pixel,
                    physical_address: fb.buffer_start as usize,
                },
            ),
            None => None,
        }
    }

    fn framebuffer_address(&self) -> (r: Option<u64>) {
        match &self.framebuffer {
            Some(fb) => Some(fb.buffer_start),
            None => None,
        }
    }

    fn memory_regions(&self) -> (r: &[MemoryRegion]) {
        &[]
    }

    fn rsdp_address(&self) -> (r: Option<u64>) {
        self.rsdp_addr
    }

    fn command_line(&self) -> (r: Option<&str>) {
        None
    }
}

/// The capability handed to kernel initialisation: the adapter of whichever
/// protocol booted the kernel, behind the one interface.
pub enum BootInfoWrapper<'a> {
    BootloaderApi(&'a DirectBootInfo),
    Limine(&'a LimineBootInfo<'a>),
    Multiboot2(&'a Multiboot2BootInfo<'a>),
}

impl<'a> BootInfo for BootInfoWrapper<'a> {
    open spec fn spec_framebuffer_info(&self) -> Option<FrameBufferInfo> {
        match self {
            BootInfoWrapper::BootloaderApi(info) => info.spec_framebuffer_info(),
            BootInfoWrapper::Limine(info) => info.spec_framebuffer_info(),
            BootInfoWrapper::Multiboot2(info) => info.spec_framebuffer_info(),
        }
    }

    open spec fn spec_framebuffer_address(&self) -> Option<u64> {
        match self {
            BootInfoWrapper::BootloaderApi(info) => info.spec_framebuffer_address(),
            BootInfoWrapper::Limine(info) => info.spec_framebuffer_address(),
            BootInfoWrapper::Multiboot2(info) => info.spec_framebuffer_address(),
        }
    }

    open spec fn spec_memory_regions(&self) -> Seq<MemoryRegion> {
        match self {
            BootInfoWrapper::BootloaderApi(info) => info.spec_memory_regions(),
            BootInfoWrapper::Limine(info) => info.spec_memory_regions(),
            BootInfoWrapper::Multiboot2(info) => info.spec_memory_regions(),
        }
    }

    open spec fn spec_rsdp_address(&self) -> Option<u64> {
        match self {
            BootInfoWrapper::BootloaderApi(info) => info.spec_rsdp_address(),
            BootInfoWrapper::Limine(info) => info.spec_rsdp_address(),
            BootInfoWrapper::Multiboot2(info) => info.spec_rsdp_address(),
        }
    }

    open spec fn spec_command_line(&self) -> Option<Seq<char>> {
        match self {
            BootInfoWrapper::BootloaderApi(info) => info.spec_command_line(),
            BootInfoWrapper::Limine(info) => info.spec_command_line(),
            BootInfoWrapper::Multiboot2(info) => info.spec_command_line(),
        }
    }

    fn framebuffer_info(&self) -> (r: Option<FrameBufferInfo>) {
        match self {
            BootInfoWrapper::BootloaderApi(info) => info.framebuffer_info(),
            BootInfoWrapper::Limine(info) => info.framebuffer_info(),
            BootInfoWrapper::Multiboot2(info) => info.framebuffer_info(),
        }
    }

    fn framebuffer_address(&self) -> (r: Option<u64>) {
        match self {
            BootInfoWrapper::BootloaderApi(info) => info.framebuffer_address(),
            BootInfoWrapper::Limine(info) => info.framebuffer_address(),
            BootInfoWrapper::Multiboot2(info) => info.framebuffer_address(),
        }
    }

    fn memory_regions(&self) -> (r: &[MemoryRegion]) {
        match self {
            BootInfoWrapper::BootloaderApi(info) => info.memory_regions(),
            BootInfoWrapper::Limine(info) => info.memory_regions(),
            BootInfoWrapper::Multiboot2(info) => info.memory_regions(),
        }
    }

    fn rsdp_address(&self) -> (r: Option<u64>) {
        match self {
            BootInfoWrapper::BootloaderApi(info) => info.rsdp_address(),
            BootInfoWrapper::Limine(info) => info.rsdp_address(),
            BootInfoWrapper::Multiboot2(info) => info.rsdp_address(),
        }
    }

    fn command_line(&self) -> (r: Option<&str>) {
        match self {
            BootInfoWrapper::BootloaderApi(info) => info.command_line(),
            BootInfoWrapper::Limine(info) => info.command_line(),
            BootInfoWrapper::Multiboot2(info) => info.command_line(),
        }
    }
}

} // verus!
