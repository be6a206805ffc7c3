use utopia_kernel::boot_info::{DirectBootInfo, DirectFrameBuffer, DirectPixelFormat, PixelFormat};
use utopia_kernel::error::KernelError;
use utopia_kernel::kernel::{
    kernel_init_common, kernel_main, kernel_main_limine, kernel_main_multiboot2, BootProtocol,
    FrameBufferInfo, FrameBufferWrapper, QemuExitCode,
};
use utopia_kernel::limine_entry::LimineBootInfo;
use utopia_kernel::multiboot2::Multiboot2BootInfo;

#[test]
fn trivial_assertion() {
    assert_eq!(1, 1);
}

#[test]
fn startup_log_for_limine() {
    let log = kernel_main_limine(&LimineBootInfo { framebuffer: None, rsdp: None });
    assert_eq!(
        log,
        vec![
            "Kernel initialized with Limine bootloader!",
            "=== UTOPIA KERNEL STARTED ===",
            "STEP 1: LOGGING INIT OK",
            "STEP 2: KERNEL RUNNING",
            "STEP 3: LIMINE BOOT SUCCESS",
            "STEP 4: ALL SYSTEMS OK!",
            "=========================",
            "STEP 5: ENTERING MAIN LOOP...",
            "All startup messages completed",
        ]
    );
}

#[test]
fn startup_log_for_multiboot2() {
    let blob: Vec<u8> = Vec::new();
    let log = kernel_main_multiboot2(&Multiboot2BootInfo::new(0, &blob));
    assert_eq!(log[0], "Kernel initialized with Multiboot 2!");
    assert_eq!(log[4], "STEP 3: MULTIBOOT 2 BOOT SUCCESS");
    assert_eq!(log.len(), 9);
}

#[test]
fn startup_log_for_bootloader_api() {
    let log = kernel_init_common(BootProtocol::BootloaderApi);
    assert_eq!(log[0], "Kernel initialized with bootloader_api!");
    assert_eq!(log[4], "STEP 3: BOOTLOADER_API BOOT SUCCESS");
    assert_eq!(log[8], "All startup messages completed");
}

#[test]
fn direct_entry_requires_a_framebuffer() {
    assert!(kernel_main(&DirectBootInfo { framebuffer: None, rsdp_addr: Some(0xF5A0) }).is_none());
    let fb = DirectFrameBuffer {
        buffer_start: 0x8000_0000,
        byte_len: 4096,
        width: 32,
        height: 32,
        pixel_format: DirectPixelFormat::Rgb,
        bytes_per_pixel: 4,
        stride: 32,
    };
    let log = kernel_main(&DirectBootInfo { framebuffer: Some(fb), rsdp_addr: None }).unwrap();
    assert_eq!(log, kernel_init_common(BootProtocol::BootloaderApi));
}

#[test]
fn qemu_exit_codes() {
    assert_eq!(QemuExitCode::Success.code(), 0x10);
    assert_eq!(QemuExitCode::Failed.code(), 0x11);
}

#[test]
fn framebuffer_wrapper_holds_buffer_and_geometry() {
    let mut bytes = vec![0u8; 16];
    let w = FrameBufferWrapper {
        buffer: &mut bytes,
        info: FrameBufferInfo { width: 2, height: 2, stride: 2, pixel_format: PixelFormat::Rgb, bytes_per_pixel: 4 },
    };
    w.buffer[0] = 0xFF;
    assert_eq!(w.info.width * w.info.height * w.info.bytes_per_pixel, w.buffer.len());
    assert_eq!(bytes[0], 0xFF);
}

#[test]
fn kernel_error_messages() {
    assert_eq!(KernelError::VgaInitFailed.message(), "VGA initialization failed");
    assert_eq!(KernelError::LoggerInitFailed.message(), "Logger initialization failed");
    assert_eq!(KernelError::WriteFailed.message(), "Write operation failed");
    assert_eq!(KernelError::InvalidParameter.message(), "Invalid parameter");
    assert_eq!(KernelError::HardwareError.message(), "Hardware error");
}

#[test]
fn format_error_becomes_write_failed() {
    assert_eq!(KernelError::from(core::fmt::Error), KernelError::WriteFailed);
}
