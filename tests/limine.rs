use utopia_kernel::boot_info::{BootInfo, PixelFormat};
use utopia_kernel::limine_entry::{
    on_framebuffer, on_framebuffer_pointer, on_framebuffer_response, on_rsdp_response,
    parse_limine_info, LimineBootInfo, LimineFramebuffer, LimineFramebufferResponse,
    LimineRequest, LimineRsdpResponse, LimineStep, LIMINE_COMMON_MAGIC_0, LIMINE_COMMON_MAGIC_1,
    LIMINE_FRAMEBUFFER_REQUEST, LIMINE_RSDP_REQUEST,
};

fn framebuffer() -> LimineFramebuffer {
    LimineFramebuffer {
        address: 0xFD00_0000,
        width: 800,
        height: 600,
        pitch: 3200,
        bpp: 32,
        memory_model: 1,
        red_mask_size: 8,
        red_mask_shift: 16,
        green_mask_size: 8,
        green_mask_shift: 8,
        blue_mask_size: 8,
        blue_mask_shift: 0,
        unused: [0; 7],
        edid_size: 0,
        edid: 0,
    }
}

fn answered(id: [u64; 4], response: u64) -> LimineRequest {
    let mut r = LimineRequest::new(id);
    r.response = response;
    r
}

/// Memory as the bootloader left it, for the addresses used below.
struct Memory {
    framebuffer_response: LimineFramebufferResponse,
    first_pointer: u64,
    framebuffer: LimineFramebuffer,
    rsdp_response: LimineRsdpResponse,
}

/// Drives the steps to the end, answering each read from `mem`; counts reads.
fn run(fb_req: &LimineRequest, rsdp_req: &LimineRequest, mem: &Memory) -> (LimineBootInfo, usize) {
    let mut step = parse_limine_info(fb_req, rsdp_req);
    let mut reads = 0;
    loop {
        step = match step {
            LimineStep::ReadFramebufferResponse { rsdp_response, .. } => {
                on_framebuffer_response(rsdp_response, &mem.framebuffer_response)
            }
            LimineStep::ReadFramebufferPointer { rsdp_response, .. } => {
                on_framebuffer_pointer(rsdp_response, mem.first_pointer)
            }
            LimineStep::ReadFramebuffer { rsdp_response, .. } => on_framebuffer(rsdp_response, mem.framebuffer),
            LimineStep::ReadRsdpResponse { framebuffer, .. } => on_rsdp_response(framebuffer, &mem.rsdp_response),
            LimineStep::Done(info) => return (info, reads),
        };
        reads += 1;
    }
}

fn full_memory() -> Memory {
    Memory {
        framebuffer_response: LimineFramebufferResponse { revision: 0, framebuffer_count: 1, framebuffers: 0x5000 },
        first_pointer: 0x6000,
        framebuffer: framebuffer(),
        rsdp_response: LimineRsdpResponse { revision: 0, address: 0xE_0000 },
    }
}

#[test]
fn request_starts_unanswered() {
    let r = LimineRequest::new(LIMINE_FRAMEBUFFER_REQUEST);
    assert_eq!(r.id, LIMINE_FRAMEBUFFER_REQUEST);
    assert_eq!(r.id[0], LIMINE_COMMON_MAGIC_0);
    assert_eq!(r.id[1], LIMINE_COMMON_MAGIC_1);
    assert_eq!(r.id[2], 0x9d5827dcd881dd75);
    assert_eq!(r.revision, 0);
    assert_eq!(r.response, 0);
}

#[test]
fn handshake_reads_both_chains() {
    let fb_req = answered(LIMINE_FRAMEBUFFER_REQUEST, 0x4000);
    let rsdp_req = answered(LIMINE_RSDP_REQUEST, 0x7000);
    let (info, reads) = run(&fb_req, &rsdp_req, &full_memory());
    assert_eq!(reads, 4);
    assert_eq!(info.framebuffer_address(), Some(0xFD00_0000));
    let fb = info.framebuffer_info().unwrap();
    assert_eq!(fb.pixel_format, PixelFormat::Rgb);
    assert_eq!(fb.stride, 800);
    assert_eq!(fb.bytes_per_pixel, 4);
    assert_eq!(info.rsdp_address(), Some(0xE_0000));
    assert!(info.memory_regions().is_empty());
    assert_eq!(info.command_line(), None);
}

#[test]
fn first_step_reads_the_framebuffer_response() {
    let fb_req = answered(LIMINE_FRAMEBUFFER_REQUEST, 0x4000);
    let rsdp_req = answered(LIMINE_RSDP_REQUEST, 0x7000);
    match parse_limine_info(&fb_req, &rsdp_req) {
        LimineStep::ReadFramebufferResponse { at, rsdp_response } => {
            assert_eq!(at, 0x4000);
            assert_eq!(rsdp_response, 0x7000);
        }
        other => panic!("unexpected step {:?}", other),
    }
}

#[test]
fn unanswered_framebuffer_request_is_absent() {
    let fb_req = LimineRequest::new(LIMINE_FRAMEBUFFER_REQUEST);
    let rsdp_req = answered(LIMINE_RSDP_REQUEST, 0x7000);
    let (info, reads) = run(&fb_req, &rsdp_req, &full_memory());
    // only the RSDP response is read
    assert_eq!(reads, 1);
    assert!(info.framebuffer.is_none());
    assert_eq!(info.framebuffer_info(), None);
    assert_eq!(info.framebuffer_address(), None);
    assert_eq!(info.rsdp_address(), Some(0xE_0000));
}

#[test]
fn unanswered_rsdp_request_is_absent() {
    let fb_req = answered(LIMINE_FRAMEBUFFER_REQUEST, 0x4000);
    let rsdp_req = LimineRequest::new(LIMINE_RSDP_REQUEST);
    let (info, reads) = run(&fb_req, &rsdp_req, &full_memory());
    assert_eq!(reads, 3);
    assert_eq!(info.rsdp_address(), None);
    assert_eq!(info.framebuffer_address(), Some(0xFD00_0000));
}

#[test]
fn nothing_answered_reads_nothing() {
    let fb_req = LimineRequest::new(LIMINE_FRAMEBUFFER_REQUEST);
    let rsdp_req = LimineRequest::new(LIMINE_RSDP_REQUEST);
    let (info, reads) = run(&fb_req, &rsdp_req, &full_memory());
    assert_eq!(reads, 0);
    assert_eq!(info.framebuffer_info(), None);
    assert_eq!(info.rsdp_address(), None);
}

#[test]
fn zero_framebuffer_count_is_absent() {
    let mut mem = full_memory();
    mem.framebuffer_response.framebuffer_count = 0;
    let (info, reads) = run(&answered(LIMINE_FRAMEBUFFER_REQUEST, 0x4000), &answered(LIMINE_RSDP_REQUEST, 0x7000), &mem);
    assert_eq!(reads, 2);
    assert_eq!(info.framebuffer_address(), None);
}

#[test]
fn null_framebuffer_array_is_absent() {
    let mut mem = full_memory();
    mem.framebuffer_response.framebuffers = 0;
    let (info, _) = run(&answered(LIMINE_FRAMEBUFFER_REQUEST, 0x4000), &answered(LIMINE_RSDP_REQUEST, 0x7000), &mem);
    assert_eq!(info.framebuffer_info(), None);
}

#[test]
fn null_first_framebuffer_is_absent() {
    let mut mem = full_memory();
    mem.first_pointer = 0;
    let (info, reads) = run(&answered(LIMINE_FRAMEBUFFER_REQUEST, 0x4000), &answered(LIMINE_RSDP_REQUEST, 0x7000), &mem);
    assert_eq!(reads, 3);
    assert_eq!(info.framebuffer_address(), None);
    assert_eq!(info.rsdp_address(), Some(0xE_0000));
}

#[test]
fn null_rsdp_address_is_absent() {
    let mut mem = full_memory();
    mem.rsdp_response.address = 0;
    let (info, _) = run(&answered(LIMINE_FRAMEBUFFER_REQUEST, 0x4000), &answered(LIMINE_RSDP_REQUEST, 0x7000), &mem);
    assert_eq!(info.rsdp_address(), None);
    assert!(info.framebuffer.is_some());
}

#[test]
fn framebuffer_record_drops_reserved_fields() {
    let r = framebuffer().record();
    assert_eq!(r.address, 0xFD00_0000);
    assert_eq!(r.pitch, 3200);
    assert_eq!(r.red_mask_shift, 16);
}
