use utopia_kernel::boot_info::{
    pixel_format_from_masks, BootInfo, BootInfoWrapper, DirectBootInfo, DirectFrameBuffer,
    DirectPixelFormat, FrameBufferInfo, LimineBootInfo, LimineFramebuffer, MemoryRegion,
    MemoryRegionType, PixelFormat,
};
use utopia_kernel::multiboot2::Multiboot2BootInfo;

fn limine_fb(bpp: u16, memory_model: u8, red_mask_size: u8, red_mask_shift: u8) -> LimineFramebuffer {
    LimineFramebuffer {
        address: 0xFD00_0000,
        width: 1280,
        height: 800,
        pitch: 5120,
        bpp,
        memory_model,
        red_mask_size,
        red_mask_shift,
        green_mask_size: 8,
        green_mask_shift: 8,
        blue_mask_size: 8,
        blue_mask_shift: 0,
    }
}

#[test]
fn pixel_heuristic_rgb() {
    assert_eq!(pixel_format_from_masks(1, 8, 16), PixelFormat::Rgb);
}

#[test]
fn pixel_heuristic_bgr() {
    assert_eq!(pixel_format_from_masks(1, 8, 0), PixelFormat::Bgr);
    assert_eq!(pixel_format_from_masks(1, 5, 0), PixelFormat::Bgr);
}

#[test]
fn pixel_heuristic_unknown() {
    assert_eq!(pixel_format_from_masks(0, 8, 16), PixelFormat::Unknown);
    assert_eq!(pixel_format_from_masks(1, 5, 16), PixelFormat::Unknown);
    assert_eq!(pixel_format_from_masks(1, 8, 8), PixelFormat::Unknown);
    assert_eq!(pixel_format_from_masks(2, 8, 0), PixelFormat::Unknown);
}

#[test]
fn limine_framebuffer_projection() {
    let fb = limine_fb(32, 1, 8, 16);
    assert_eq!(
        fb.info(),
        Some(FrameBufferInfo {
            width: 1280,
            height: 800,
            stride: 1280,
            pixel_format: PixelFormat::Rgb,
            bytes_per_pixel: 4,
            physical_address: 0xFD00_0000,
        })
    );
}

#[test]
fn limine_framebuffer_rounds_bit_depth_up() {
    let fb = limine_fb(15, 1, 5, 0);
    let info = fb.info().unwrap();
    assert_eq!(info.bytes_per_pixel, 2);
    assert_eq!(info.stride, 2560);
    assert_eq!(info.pixel_format, PixelFormat::Bgr);
}

#[test]
fn limine_framebuffer_with_zero_depth_is_absent() {
    assert_eq!(limine_fb(0, 1, 8, 16).info(), None);
}

#[test]
fn limine_boot_info_accessors() {
    let regions = [
        MemoryRegion { start: 0, end: 0x9F000, region_type: MemoryRegionType::Usable },
        MemoryRegion { start: 0xF0000, end: 0x100000, region_type: MemoryRegionType::Reserved },
    ];
    let info = LimineBootInfo {
        framebuffer: Some(limine_fb(32, 1, 8, 0)),
        memory_map: &regions,
        rsdp: Some(0xE0000),
        cmdline: Some("console=ttyS0"),
    };
    assert_eq!(info.framebuffer_address(), Some(0xFD00_0000));
    assert_eq!(info.framebuffer_info().unwrap().pixel_format, PixelFormat::Bgr);
    assert_eq!(info.memory_regions(), &regions[..]);
    assert_eq!(info.rsdp_address(), Some(0xE0000));
    assert_eq!(info.command_line(), Some("console=ttyS0"));
}

#[test]
fn limine_boot_info_absent_facts() {
    let info = LimineBootInfo { framebuffer: None, memory_map: &[], rsdp: None, cmdline: None };
    assert_eq!(info.framebuffer_info(), None);
    assert_eq!(info.framebuffer_address(), None);
    assert!(info.memory_regions().is_empty());
    assert_eq!(info.rsdp_address(), None);
    assert_eq!(info.command_line(), None);
}

fn direct_fb(pixel_format: DirectPixelFormat) -> DirectFrameBuffer {
    DirectFrameBuffer {
        buffer_start: 0x8000_0000,
        byte_len: 1024 * 768 * 4,
        width: 1024,
        height: 768,
        pixel_format,
        bytes_per_pixel: 4,
        stride: 1032,
    }
}

#[test]
fn direct_adapter_projects_fields() {
    let info = DirectBootInfo { framebuffer: Some(direct_fb(DirectPixelFormat::Bgr)), rsdp_addr: Some(0xF5A0) };
    assert_eq!(
        info.framebuffer_info(),
        Some(FrameBufferInfo {
            width: 1024,
            height: 768,
            stride: 1032,
            pixel_format: PixelFormat::Bgr,
            bytes_per_pixel: 4,
            physical_address: 0x8000_0000,
        })
    );
    assert_eq!(info.framebuffer_address(), Some(0x8000_0000));
    assert_eq!(info.rsdp_address(), Some(0xF5A0));
    assert!(info.memory_regions().is_empty());
    assert_eq!(info.command_line(), None);
}

#[test]
fn direct_pixel_formats_map_one_to_one() {
    assert_eq!(DirectPixelFormat::Rgb.pixel_format(), PixelFormat::Rgb);
    assert_eq!(DirectPixelFormat::Bgr.pixel_format(), PixelFormat::Bgr);
    assert_eq!(DirectPixelFormat::U8.pixel_format(), PixelFormat::U8);
    let masked = DirectPixelFormat::Unknown { red_position: 0, green_position: 8, blue_position: 16 };
    assert_eq!(masked.pixel_format(), PixelFormat::Unknown);
    assert_eq!(DirectPixelFormat::Unrecognized.pixel_format(), PixelFormat::Unknown);
}

#[test]
fn direct_adapter_without_framebuffer() {
    let info = DirectBootInfo { framebuffer: None, rsdp_addr: None };
    assert_eq!(info.framebuffer_info(), None);
    assert_eq!(info.framebuffer_address(), None);
    assert_eq!(info.rsdp_address(), None);
}

#[test]
fn wrapper_dispatches_to_each_adapter() {
    let direct = DirectBootInfo { framebuffer: Some(direct_fb(DirectPixelFormat::U8)), rsdp_addr: Some(1) };
    let w = BootInfoWrapper::BootloaderApi(&direct);
    assert_eq!(w.framebuffer_info().unwrap().pixel_format, PixelFormat::U8);
    assert_eq!(w.rsdp_address(), Some(1));

    let limine = LimineBootInfo { framebuffer: None, memory_map: &[], rsdp: Some(2), cmdline: Some("x") };
    let w = BootInfoWrapper::Limine(&limine);
    assert_eq!(w.framebuffer_address(), None);
    assert_eq!(w.rsdp_address(), Some(2));
    assert_eq!(w.command_line(), Some("x"));

    let blob: Vec<u8> = vec![16, 0, 0, 0, 0, 0, 0, 0, 0, 0, 0, 0, 8, 0, 0, 0];
    let mb = Multiboot2BootInfo::new(0x1000, &blob);
    let w = BootInfoWrapper::Multiboot2(&mb);
    assert_eq!(w.framebuffer_info(), None);
    assert_eq!(w.rsdp_address(), None);
    assert!(w.memory_regions().is_empty());
    assert_eq!(w.command_line(), None);
}
