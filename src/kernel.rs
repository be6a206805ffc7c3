//! The protocol-independent start of the kernel: what each entry hands over
//! to, and what initialisation reports before the main loop.
use vstd::prelude::*;

use crate::boot_info::{DirectBootInfo, PixelFormat};
use crate::limine_entry::LimineBootInfo;
use crate::multiboot2::Multiboot2BootInfo;

verus! {

/// The geometry of the framebuffer that the kernel draws into.
#[derive(Debug, Clone, Copy, PartialEq, Eq, Structural)]
pub struct FrameBufferInfo {
    pub width: usize,
    pub height: usize,
    pub stride: usize,
    pub pixel_format: PixelFormat,
    pub bytes_per_pixel: usize,
}

/// The framebuffer's bytes together with their geometry.
pub struct FrameBufferWrapper<'a> {
    pub buffer: &'a mut [u8],
    pub info: FrameBufferInfo,
}

/// The exit status the kernel reports to QEMU's debug-exit device.
#[derive(Debug, Clone, Copy, PartialEq, Eq, Structural)]
pub enum QemuExitCode {
    Success,
    Failed,
}

impl QemuExitCode {
    /// The value written to the debug-exit port.
    pub fn code(self) -> (r: u32)
        ensures
            self == QemuExitCode::Success ==> r == 0x10,
            self == QemuExitCode::Failed ==> r == 0x11,
    {
        match self {
            QemuExitCode::Success => 0x10,
            QemuExitCode::Failed => 0x11,
        }
    }
}

/// The protocol by which the kernel was booted.
#[derive(Debug, Clone, Copy, PartialEq, Eq, Structural)]
pub enum BootProtocol {
    BootloaderApi,
    Limine,
    Multiboot2,
}

/// The lines that initialisation logs, in order, before the main loop.
pub open spec fn startup_log(protocol: BootProtocol) -> Seq<&'static str> {
    seq![
        match protocol {
            BootProtocol::BootloaderApi => "Kernel initialized with bootloader_api!",
            BootProtocol::Limine => "Kernel initialized with Limine bootloader!",
            BootProtocol::Multiboot2 => "Kernel initialized with Multiboot 2!",
        },
        "=== UTOPIA KERNEL STARTED ===",
        "STEP 1: LOGGING INIT OK",
        "STEP 2: KERNEL RUNNING",
        match protocol {
            BootProtocol::BootloaderApi => "STEP 3: BOOTLOADER_API BOOT SUCCESS",
            BootProtocol::Limine => "STEP 3: LIMINE BOOT SUCCESS",
            BootProtocol::Multiboot2 => "STEP 3: MULTIBOOT 2 BOOT SUCCESS",
        },
        "STEP 4: ALL SYSTEMS OK!",
        "=========================",
        "STEP 5: ENTERING MAIN LOOP...",
        "All startup messages completed",
    ]
}

/// The protocol-independent initialisation: the lines to log, in order,
/// once the logger is up. The main loop follows them.
pub fn kernel_init_common(protocol: BootProtocol) -> (r: Vec<&'static str>)
    ensures
        r@ == startup_log(protocol),
{
    let banner = match protocol {
        BootProtocol::BootloaderApi => "Kernel initialized with bootloader_api!",
        BootProtocol::Limine => "Kernel initialized with Limine bootloader!",
        BootProtocol::Multiboot2 => "Kernel initialized with Multiboot 2!",
    };
    let step3 = match protocol {
        BootProtocol::BootloaderApi => "STEP 3: BOOTLOADER_API BOOT SUCCESS",
        BootProtocol::Limine => "STEP 3: LIMINE BOOT SUCCESS",
        BootProtocol::Multiboot2 => "STEP 3: MULTIBOOT 2 BOOT SUCCESS",
    };
    let r = vec![
        banner,
        "=== UTOPIA KERNEL STARTED ===",
        "STEP 1: LOGGING INIT OK",
        "STEP 2: KERNEL RUNNING",
        step3,
        "STEP 4: ALL SYSTEMS OK!",
        "=========================",
        "STEP 5: ENTERING MAIN LOOP...",
        "All startup messages completed",
    ];
    assert(r@ =~= startup_log(protocol));
    r
}

/// The entry of the direct-struct protocol. That protocol's kernel needs a
/// framebuffer: without one there is nothing to hand over to, and the result
/// is `None` (the entry halts). Otherwise it hands over to initialisation.
pub fn kernel_main(boot_info: &DirectBootInfo) -> (r: Option<Vec<&'static str>>)
    ensures
        boot_info.framebuffer is None <==> r is None,
        r matches Some(log) ==> log@ == startup_log(BootProtocol::BootloaderApi),
{
    match &boot_info.framebuffer {
        Some(_) => Some(kernel_init_common(BootProtocol::BootloaderApi)),
        None => None,
    }
}

/// The entry of the handshake protocol hands over to initialisation.
pub fn kernel_main_limine(_boot_info: &LimineBootInfo) -> (r: Vec<&'static str>)
    ensures
        r@ == startup_log(BootProtocol::Limine),
{
    kernel_init_common(BootProtocol::Limine)
}

/// The entry of the tagged-stream protocol hands over to initialisation.
pub fn kernel_main_multiboot2(_boot_info: &Multiboot2BootInfo) -> (r: Vec<&'static str>)
    ensures
        r@ == startup_log(BootProtocol::Multiboot2),
{
    kernel_init_common(BootProtocol::Multiboot2)
}

} // verus!
