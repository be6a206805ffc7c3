//! The request/response handshake. The kernel publishes request records; the
//! bootloader answers each by writing the address of a response record into
//! it. Reading the answers means following those addresses, which the entry
//! code does one read at a time, as the step functions here direct.
use vstd::prelude::*;

use crate::boot_info::{self, BootInfo, FrameBufferInfo, MemoryRegion};

verus! {

/// The two words that open every request identifier.
pub const LIMINE_COMMON_MAGIC_0: u64 = 0xc7b1dd30df4c8b88;

pub const LIMINE_COMMON_MAGIC_1: u64 = 0x0a82e883a194f07b;

/// The identifier of the framebuffer request.
pub const LIMINE_FRAMEBUFFER_REQUEST: [u64; 4] = [
    LIMINE_COMMON_MAGIC_0,
    LIMINE_COMMON_MAGIC_1,
    0x9d5827dcd881dd75,
    0xa3148604f6fab11b,
];

/// The identifier of the memory-map request.
pub const LIMINE_MEMMAP_REQUEST: [u64; 4] = [
    LIMINE_COMMON_MAGIC_0,
    LIMINE_COMMON_MAGIC_1,
    0x67cf3d9d378a806f,
    0xe304acdfc50c3c62,
];

/// The identifier of the RSDP request.
pub const LIMINE_RSDP_REQUEST: [u64; 4] = [
    LIMINE_COMMON_MAGIC_0,
    LIMINE_COMMON_MAGIC_1,
    0xc5e77b6b397e7b21,
    0x9e421c1053fdd180,
];

/// A request record as the kernel publishes it. `response` is the address
/// of the bootloader's answer; zero (a null pointer) means it gave none.
#[derive(Debug, Clone, Copy)]
pub struct LimineRequest {
    pub id: [u64; 4],
    pub revision: u64,
    pub response: u64,
}

impl LimineRequest {
    /// A request with identifier `id`, revision 0, and no answer yet.
    pub fn new(id: [u64; 4]) -> (r: Self)
        ensures
            r.id == id,
            r.revision == 0,
            r.response == 0,
    {
        LimineRequest { id, revision: 0, response: 0 }
    }
}

/// The answer to the framebuffer request: how many framebuffers there are,
/// and the address of an array of addresses of their descriptions.
#[derive(Debug, Clone, Copy, PartialEq, Eq, Structural)]
pub struct LimineFramebufferResponse {
    pub revision: u64,
    pub framebuffer_count: u64,
    pub framebuffers: u64,
}

/// One framebuffer description as the bootloader writes it.
#[derive(Debug, Clone, Copy)]
pub struct LimineFramebuffer {
    pub address: u64,
    pub width: u64,
    pub height: u64,
    pub pitch: u64,
    pub bpp: u16,
    pub memory_model: u8,
    pub red_mask_size: u8,
    pub red_mask_shift: u8,
    pub green_mask_size: u8,
    pub green_mask_shift: u8,
    pub blue_mask_size: u8,
    pub blue_mask_shift: u8,
    pub unused: [u8; 7],
    pub edid_size: u64,
    pub edid: u64,
}

impl LimineFramebuffer {
    /// The geometry and colour fields, without the reserved bytes and EDID.
    pub open spec fn spec_record(&self) -> boot_info::LimineFramebuffer {
        boot_info::LimineFramebuffer {
            address: self.address,
            width: self.width,
            height: self.height,
            pitch: self.pitch,
            bpp: self.bpp,
            memory_model: self.memory_model,
            red_mask_size: self.red_mask_size,
            red_mask_shift: self.red_mask_shift,
            green_mask_size: self.green_mask_size,
            green_mask_shift: self.green_mask_shift,
            blue_mask_size: self.blue_mask_size,
            blue_mask_shift: self.blue_mask_shift,
        }
    }

    /// The geometry and colour fields, without the reserved bytes and EDID.
    pub fn record(&self) -> (r: boot_info::LimineFramebuffer)
        ensures
            r == self.spec_record(),
    {
        boot_info::LimineFramebuffer {
            address: self.address,
            width: self.width,
            height: self.height,
            pitch: self.pitch,
            bpp: self.bpp,
            memory_model: self.memory_model,
            red_mask_size: self.red_mask_size,
            red_mask_shift: self.red_mask_shift,
            green_mask_size: self.green_mask_size,
            green_mask_shift: self.green_mask_shift,
            blue_mask_size: self.blue_mask_size,
            blue_mask_shift: self.blue_mask_shift,
        }
    }
}

/// The answer to the memory-map request.
#[derive(Debug, Clone, Copy, PartialEq, Eq, Structural)]
pub struct LimineMemmapResponse {
    pub revision: u64,
    pub entry_count: u64,
    pub entries: u64,
}

/// One memory-map entry as the bootloader writes it.
#[derive(Debug, Clone, Copy, PartialEq, Eq, Structural)]
pub struct LimineMemmapEntry {
    pub base: u64,
    pub length: u64,
    pub entry_type: u64,
}

/// The answer to the RSDP request; `address` zero means none.
#[derive(Debug, Clone, Copy, PartialEq, Eq, Structural)]
pub struct LimineRsdpResponse {
    pub revision: u64,
    pub address: u64,
}

/// What the handshake yielded: the first framebuffer and the RSDP address.
#[derive(Debug, Clone, Copy)]
pub struct LimineBootInfo {
    pub framebuffer: Option<LimineFramebuffer>,
    pub rsdp: Option<u64>,
}

impl BootInfo for LimineBootInfo {
    open spec fn spec_framebuffer_info(&self) -> Option<FrameBufferInfo> {
        match self.framebuffer {
            Some(fb) => fb.spec_record().spec_info(),
            None => None,
        }
    }

    open spec fn spec_framebuffer_address(&self) -> Option<u64> {
        match self.framebuffer {
            Some(fb) => Some(fb.address),
            None => None,
        }
    }

    open spec fn spec_memory_regions(&self) -> Seq<MemoryRegion> {
        Seq::empty()
    }

    open spec fn spec_rsdp_address(&self) -> Option<u64> {
        self.rsdp
    }

    open spec fn spec_command_line(&self) -> Option<Seq<char>> {
        None
    }

    fn framebuffer_info(&self) -> (r: Option<FrameBufferInfo>) {
        match &self.framebuffer {
            Some(fb) => fb.record().info(),
            None => None,
        }
    }

    fn framebuffer_address(&self) -> (r: Option<u64>) {
        match &self.framebuffer {
            Some(fb) => Some(fb.address),
            None => None,
        }
    }

    fn memory_regions(&self) -> (r: &[MemoryRegion]) {
        &[]
    }

    fn rsdp_address(&self) -> (r: Option<u64>) {
        self.rsdp
    }

    fn command_line(&self) -> (r: Option<&str>) {
        None
    }
}

/// Where reading the bootloader's answers stands: the read that the entry
/// code owes next, or the finished result. `rsdp_response` carries the RSDP
/// request's answer address until the RSDP chain is reached.
#[derive(Debug, Clone, Copy)]
pub enum LimineStep {
    /// Read the framebuffer response record at `at`.
    ReadFramebufferResponse { at: u64, rsdp_response: u64 },
    /// Read the address stored at `at`: the first framebuffer's.
    ReadFramebufferPointer { at: u64, rsdp_response: u64 },
    /// Read the framebuffer description at `at`.
    ReadFramebuffer { at: u64, rsdp_response: u64 },
    /// Read the RSDP response record at `at`.
    ReadRsdpResponse { at: u64, framebuffer: Option<LimineFramebuffer> },
    /// Nothing more to read.
    Done(LimineBootInfo),
}

/// The step once the framebuffer chain has ended with `framebuffer`.
pub open spec fn rsdp_stage(framebuffer: Option<LimineFramebuffer>, rsdp_response: u64) -> LimineStep {
    if rsdp_response != 0 {
        LimineStep::ReadRsdpResponse { at: rsdp_response, framebuffer }
    } else {
        LimineStep::Done(LimineBootInfo { framebuffer, rsdp: None })
    }
}

/// The first step, from the two published requests.
pub open spec fn start_step(framebuffer_request: LimineRequest, rsdp_request: LimineRequest) -> LimineStep {
    if framebuffer_request.response != 0 {
        LimineStep::ReadFramebufferResponse {
            at: framebuffer_request.response,
            rsdp_response: rsdp_request.response,
        }
    } else {
        rsdp_stage(None, rsdp_request.response)
    }
}

/// The step after the framebuffer response record was read.
pub open spec fn framebuffer_response_step(rsdp_response: u64, response: LimineFramebufferResponse) -> LimineStep {
    if response.framebuffer_count > 0 && response.framebuffers != 0 {
        LimineStep::ReadFramebufferPointer { at: response.framebuffers, rsdp_response }
    } else {
        rsdp_stage(None, rsdp_response)
    }
}

/// The step after the first framebuffer's address was read.
pub open spec fn framebuffer_pointer_step(rsdp_response: u64, pointer: u64) -> LimineStep {
    if pointer != 0 {
        LimineStep::ReadFramebuffer { at: pointer, rsdp_response }
    } else {
        rsdp_stage(None, rsdp_response)
    }
}

/// The step after the RSDP response record was read.
pub open spec fn rsdp_response_step(framebuffer: Option<LimineFramebuffer>, response: LimineRsdpResponse) -> LimineStep {
    LimineStep::Done(
        LimineBootInfo {
            framebuffer,
            rsdp: if response.address != 0 {
                Some(response.address)
            } else {
                None
            },
        },
    )
}

/// Where to continue once the framebuffer chain has ended with `framebuffer`.
fn to_rsdp_stage(framebuffer: Option<LimineFramebuffer>, rsdp_response: u64) -> (r: LimineStep)
    ensures
        r == rsdp_stage(framebuffer, rsdp_response),
{
    if rsdp_response != 0 {
        LimineStep::ReadRsdpResponse { at: rsdp_response, framebuffer }
    } else {
        LimineStep::Done(LimineBootInfo { framebuffer, rsdp: None })
    }
}

/// Starts reading the bootloader's answers to the framebuffer and RSDP
/// requests. A request whose answer address is zero was not honoured: its
/// chain is skipped and its facts stay absent.
pub fn parse_limine_info(framebuffer_request: &LimineRequest, rsdp_request: &LimineRequest) -> (r:
    LimineStep)
    ensures
        r == start_step(*framebuffer_request, *rsdp_request),
{
    if framebuffer_request.response != 0 {
        LimineStep::ReadFramebufferResponse {
            at: framebuffer_request.response,
            rsdp_response: rsdp_request.response,
        }
    } else {
        to_rsdp_stage(None, rsdp_request.response)
    }
}

/// Continues after the framebuffer response record: only the first
/// framebuffer is consulted, and only if the count is positive and the array
/// address is not zero.
pub fn on_framebuffer_response(rsdp_response: u64, response: &LimineFramebufferResponse) -> (r:
    LimineStep)
    ensures
        r == framebuffer_response_step(rsdp_response, *response),
{
    if response.framebuffer_count > 0 && response.framebuffers != 0 {
        LimineStep::ReadFramebufferPointer { at: response.framebuffers, rsdp_response }
    } else {
        to_rsdp_stage(None, rsdp_response)
    }
}

/// Continues after the first framebuffer's address: zero means none.
pub fn on_framebuffer_pointer(rsdp_response: u64, pointer: u64) -> (r: LimineStep)
    ensures
        r == framebuffer_pointer_step(rsdp_response, pointer),
{
    if pointer != 0 {
        LimineStep::ReadFramebuffer { at: pointer, rsdp_response }
    } else {
        to_rsdp_stage(None, rsdp_response)
    }
}

/// Continues after the framebuffer description: the framebuffer chain is done.
pub fn on_framebuffer(rsdp_response: u64, framebuffer: LimineFramebuffer) -> (r: LimineStep)
    ensures
        r == rsdp_stage(Some(framebuffer), rsdp_response),
{
    to_rsdp_stage(Some(framebuffer), rsdp_response)
}

/// Finishes after the RSDP response record: an address of zero means none.
pub fn on_rsdp_response(framebuffer: Option<LimineFramebuffer>, response: &LimineRsdpResponse) -> (r:
    LimineStep)
    ensures
        r == rsdp_response_step(framebuffer, *response),
{
    let rsdp = if response.address != 0 {
        Some(response.address)
    } else {
        None
    };
    LimineStep::Done(LimineBootInfo { framebuffer, rsdp })
}

/// What memory holds at each place that the reads may reach.
pub struct LimineAnswers {
    pub framebuffer_response: LimineFramebufferResponse,
    pub framebuffer_pointer: u64,
    pub framebuffer: LimineFramebuffer,
    pub rsdp_response: LimineRsdpResponse,
}

/// How many reads a step can still ask for at most.
pub open spec fn step_rank(step: LimineStep) -> nat {
    match step {
        LimineStep::ReadFramebufferResponse { .. } => 4,
        LimineStep::ReadFramebufferPointer { .. } => 3,
        LimineStep::ReadFramebuffer { .. } => 2,
        LimineStep::ReadRsdpResponse { .. } => 1,
        LimineStep::Done(_) => 0,
    }
}

/// The result of driving the steps to the end, each read answered from `a`.
pub open spec fn run_handshake(step: LimineStep, a: LimineAnswers) -> LimineBootInfo
    decreases step_rank(step),
{
    match step {
        LimineStep::ReadFramebufferResponse { rsdp_response, .. } => run_handshake(
            framebuffer_response_step(rsdp_response, a.framebuffer_response),
            a,
        ),
        LimineStep::ReadFramebufferPointer { rsdp_response, .. } => run_handshake(
            framebuffer_pointer_step(rsdp_response, a.framebuffer_pointer),
            a,
        ),
        LimineStep::ReadFramebuffer { rsdp_response, .. } => run_handshake(
            rsdp_stage(Some(a.framebuffer), rsdp_response),
            a,
        ),
        LimineStep::ReadRsdpResponse { framebuffer, .. } => run_handshake(
            rsdp_response_step(framebuffer, a.rsdp_response),
            a,
        ),
        LimineStep::Done(info) => info,
    }
}

/// The facts that the bootloader's answers hold, read straight off them.
pub open spec fn answered_info(
    framebuffer_request: LimineRequest,
    rsdp_request: LimineRequest,
    a: LimineAnswers,
) -> LimineBootInfo {
    LimineBootInfo {
        framebuffer: if framebuffer_request.response != 0
            && a.framebuffer_response.framebuffer_count > 0
            && a.framebuffer_response.framebuffers != 0 && a.framebuffer_pointer != 0 {
            Some(a.framebuffer)
        } else {
            None
        },
        rsdp: if rsdp_request.response != 0 && a.rsdp_response.address != 0 {
            Some(a.rsdp_response.address)
        } else {
            None
        },
    }
}

/// Driving the steps from `parse_limine_info` to the end yields the first
/// framebuffer exactly when every address along its chain is set and the
/// count is positive, and the RSDP address exactly when both the response
/// and its address are set.
pub proof fn lemma_handshake_outcome(
    framebuffer_request: LimineRequest,
    rsdp_request: LimineRequest,
    a: LimineAnswers,
)
    ensures
        run_handshake(start_step(framebuffer_request, rsdp_request), a) == answered_info(
            framebuffer_request,
            rsdp_request,
            a,
        ),
{
    reveal_with_fuel(run_handshake, 5);
}

/// A request left without an answer (a zero response address) makes every
/// accessor that depends on it report absence: no framebuffer and no
/// framebuffer address, or no RSDP address, whatever the other answers hold.
pub proof fn lemma_unanswered_request_is_absent(
    framebuffer_request: LimineRequest,
    rsdp_request: LimineRequest,
    a: LimineAnswers,
)
    ensures
        framebuffer_request.response == 0 ==> {
            let info = run_handshake(start_step(framebuffer_request, rsdp_request), a);
            &&& info.framebuffer is None
            &&& info.spec_framebuffer_info() is None
            &&& info.spec_framebuffer_address() is None
        },
        rsdp_request.response == 0 ==> {
            let info = run_handshake(start_step(framebuffer_request, rsdp_request), a);
            &&& info.rsdp is None
            &&& info.spec_rsdp_address() is None
        },
{
    lemma_handshake_outcome(framebuffer_request, rsdp_request, a);
}

} // verus!
