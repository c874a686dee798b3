//! What acquiring and releasing the mapped register block comes to, as far
//! as it can be decided without touching the operating system: where the
//! block lies, what is asked of the memory device and of the mapping, what
//! a failure is called, and when the mapping is released.

use vstd::prelude::*;
use vstd::string::StringExecFns;
use crate::error::Error;
use crate::hex::{prefixed_hex, to_prefixed_hex};
use crate::register::{valid_pin, Register};

verus! {

/// Size in bytes of the mapped register block.
pub const GPIO_BLOCK_SIZE: usize = 0x100;

/// Physical address of the register block on the BCM2711 of a Raspberry
/// Pi 4.
pub const BCM2711_GPIO_BASE: i64 = 0xfe20_0000;

/// Physical address of the register block. Only the BCM2711 is known, and
/// its address is returned without looking at the hardware; a caller for
/// another board passes its own address to [`mapping_request`].
pub fn detect_peripheral_base() -> (base: Result<i64, Error>)
    ensures
        base matches Ok(address) && address == 0xfe20_0000,
{
    let start: i64 = BCM2711_GPIO_BASE;
    Ok(start)
}

/// Path of the device through which physical memory is reached.
pub fn device_path() -> (path: &'static str)
    ensures
        path@ == "/dev/mem"@,
{
    "/dev/mem"
}

/// How the memory device is opened.
#[derive(Clone, Copy, Debug, PartialEq, Eq, Structural)]
pub struct DeviceRequest {
    pub read: bool,
    pub write: bool,
    pub create: bool,
}

/// The memory device is opened for reading and writing together, and is
/// never created.
pub fn device_request() -> (request: DeviceRequest)
    ensures
        request == (DeviceRequest { read: true, write: true, create: false }),
{
    DeviceRequest { read: true, write: true, create: false }
}

/// What is asked of the mapping.
#[derive(Clone, Copy, Debug, PartialEq, Eq, Structural)]
pub struct MappingRequest {
    /// Physical address at which the mapping starts.
    pub offset: i64,
    /// Length of the mapping in bytes.
    pub length: usize,
    pub readable: bool,
    pub writable: bool,
    /// Writes go through to the device and are seen by every other mapping
    /// of it.
    pub shared: bool,
}

/// The mapping of the register block at `base`: one block, readable and
/// writable, shared.
pub fn mapping_request(base: i64) -> (request: MappingRequest)
    ensures
        request == (MappingRequest {
            offset: base,
            length: 0x100,
            readable: true,
            writable: true,
            shared: true,
        }),
{
    MappingRequest {
        offset: base,
        length: GPIO_BLOCK_SIZE,
        readable: true,
        writable: true,
        shared: true,
    }
}

/// The message of a failure to open the device at `path`.
pub open spec fn open_failure_text(path: Seq<char>) -> Seq<char> {
    "failed to open "@ + path
}

/// The message of a failure to map the block at `offset`.
pub open spec fn map_failure_text(offset: i64) -> Seq<char> {
    "failed to map the GPIO ("@ + prefixed_hex((offset as u64) as nat) + ") from /dev/mem "@
}

/// The error for a failure to open the device at `path`.
pub fn open_failure(path: &str, error: std::io::Error) -> (made: Error)
    ensures
        made.message@ == open_failure_text(path@),
{
    let message = String::from_str("failed to open ").concat(path);
    Error::from_io(message, error)
}

/// The error for a failure to map the block at `offset`.
pub fn map_failure(offset: i64, error: nix::Error) -> (made: Error)
    ensures
        made.message@ == map_failure_text(offset),
        made.errno == Some(error),
{
    let address = to_prefixed_hex(offset as u64);
    let mut message = String::from_str("failed to map the GPIO (");
    message.append(address.as_str());
    message.append(") from /dev/mem ");
    Error::from_nix(message, error)
}

/// Where the mapped block stands in its life.
#[derive(Clone, Copy, Debug, PartialEq, Eq, Structural)]
pub enum RegionState {
    /// Nothing is mapped yet.
    Unopened,
    /// The block is mapped and owned.
    Mapped,
    /// The mapping was given back; nothing follows.
    Released,
}

/// What happens to the owner of the block.
#[derive(Clone, Copy, Debug, PartialEq, Eq, Structural)]
pub enum RegionEvent {
    /// The operating system established the mapping.
    MapSucceeded,
    /// The device could not be opened or the mapping was refused.
    MapFailed,
    /// The owner goes out of use.
    Disposed,
    /// The operating system took the mapping back.
    UnmapSucceeded,
    /// The operating system reported a failure to take the mapping back.
    UnmapFailed,
}

/// What the owner of the block has to do.
#[derive(Clone, Copy, Debug, PartialEq, Eq, Structural)]
pub enum RegionAction {
    Nothing,
    /// Give the mapping back to the operating system.
    Unmap,
}

/// The state that follows `state` on `event`.
pub open spec fn next_state(state: RegionState, event: RegionEvent) -> RegionState {
    match (state, event) {
        (RegionState::Unopened, RegionEvent::MapSucceeded) => RegionState::Mapped,
        (RegionState::Mapped, RegionEvent::Disposed) => RegionState::Released,
        _ => state,
    }
}

/// What is to be done when `event` arrives in `state`: the mapping is given
/// back when its owner goes out of use, and at no other time.
pub open spec fn action_on(state: RegionState, event: RegionEvent) -> RegionAction {
    match (state, event) {
        (RegionState::Mapped, RegionEvent::Disposed) => RegionAction::Unmap,
        _ => RegionAction::Nothing,
    }
}

/// Moves the life of the block on by one event. A failed attempt leaves
/// nothing mapped, and once the mapping is released no event brings it back
/// or asks for anything more: a failure to unmap goes unanswered.
pub fn step(state: RegionState, event: RegionEvent) -> (next: (RegionState, RegionAction))
    ensures
        next.0 == next_state(state, event),
        next.1 == action_on(state, event),
{
    match state {
        RegionState::Unopened => match event {
            RegionEvent::MapSucceeded => (RegionState::Mapped, RegionAction::Nothing),
            _ => (RegionState::Unopened, RegionAction::Nothing),
        },
        RegionState::Mapped => match event {
            RegionEvent::Disposed => (RegionState::Released, RegionAction::Unmap),
            _ => (RegionState::Mapped, RegionAction::Nothing),
        },
        RegionState::Released => (RegionState::Released, RegionAction::Nothing),
    }
}

/// The state reached from `state` after `events`, in order.
pub open spec fn state_after(state: RegionState, events: Seq<RegionEvent>) -> RegionState
    decreases events.len(),
{
    if events.len() == 0 {
        state
    } else {
        state_after(next_state(state, events[0]), events.drop_first())
    }
}

/// How often the mapping is given back while `events` arrive from `state`.
pub open spec fn unmaps_during(state: RegionState, events: Seq<RegionEvent>) -> nat
    decreases events.len(),
{
    if events.len() == 0 {
        0
    } else {
        let now: nat = if action_on(state, events[0]) is Unmap {
            1
        } else {
            0
        };
        now + unmaps_during(next_state(state, events[0]), events.drop_first())
    }
}

/// Whatever happens, a mapping is given back at most once; it has been
/// given back exactly once when the block is released, and not at all
/// before; and what was never mapped is never given back.
pub proof fn lemma_released_exactly_once(state: RegionState, events: Seq<RegionEvent>)
    ensures
        unmaps_during(state, events) <= 1,
        state is Released ==> state_after(state, events) is Released && unmaps_during(
            state,
            events,
        ) == 0,
        !(state is Released) ==> (state_after(state, events) is Released <==> unmaps_during(
            state,
            events,
        ) == 1),
        state is Mapped ==> !(state_after(state, events) is Unopened),
    decreases events.len(),
{
    if events.len() > 0 {
        lemma_released_exactly_once(next_state(state, events[0]), events.drop_first());
    }
}

/// Every register of every family lies inside the mapped block, on a
/// register boundary.
pub proof fn lemma_register_within_block(kind: Register, pin: u32)
    requires
        valid_pin(pin),
    ensures
        kind.offset_of(pin) + 4 <= GPIO_BLOCK_SIZE,
        kind.offset_of(pin) % 4 == 0,
{
}

} // verus!
