//! Sorting of radio packets by magic and length.
use vstd::prelude::*;

verus! {

/// Length of a state frame on the air.
pub const FRAME_LEN: usize = 25;

/// Length of a control command on the air.
pub const COMMAND_LEN: usize = 24;

/// Magic of a state frame, `0xC71E`, low byte first.
pub const FRAME_MAGIC_LE: [u8; 2] = [0x1E, 0xC7];

/// Magic of a control command, `0xCB01`, low byte first.
pub const COMMAND_MAGIC_LE: [u8; 2] = [0x01, 0xCB];

/// Whether `packet` starts with the two bytes of `magic`.
pub open spec fn has_magic(packet: Seq<u8>, magic: Seq<u8>) -> bool {
    packet.len() >= 2 && packet.take(2) == magic
}

/// Whether a packet is taken for a state frame.
pub open spec fn is_frame_packet(packet: Seq<u8>) -> bool {
    packet.len() == FRAME_LEN && has_magic(packet, FRAME_MAGIC_LE@)
}

/// Whether a packet is taken for a control command.
pub open spec fn is_command_packet(packet: Seq<u8>) -> bool {
    packet.len() == COMMAND_LEN && has_magic(packet, COMMAND_MAGIC_LE@)
}

/// Where a packet goes.
#[derive(Clone, Copy, Debug, PartialEq, Eq)]
pub enum Route {
    /// To the frame decoder, all of it.
    Frame([u8; FRAME_LEN]),
    /// To the command decoder, all of it.
    Command([u8; COMMAND_LEN]),
    /// Nowhere: too short to have a magic.
    Short,
    /// Nowhere: not for this receiver, with its first two bytes and its length.
    Skip { magic: [u8; 2], len: usize },
}

impl Route {
    /// Whether this is where `packet` goes. Exactly one route fits a packet.
    pub open spec fn fits(self, packet: Seq<u8>) -> bool {
        match self {
            Route::Frame(bytes) => is_frame_packet(packet) && bytes@ == packet,
            Route::Command(bytes) => is_command_packet(packet) && bytes@ == packet,
            Route::Short => packet.len() < 2,
            Route::Skip { magic, len } => {
                &&& packet.len() >= 2
                &&& !is_frame_packet(packet)
                &&& !is_command_packet(packet)
                &&& magic@ == packet.take(2)
                &&& len == packet.len()
            },
        }
    }
}

/// Sorts a packet by its magic and its length; both have to match.
pub fn route(packet: &[u8]) -> (r: Route)
    ensures
        r.fits(packet@),
{
    if packet.len() < 2 {
        return Route::Short;
    }
    let magic: [u8; 2] = [packet[0], packet[1]];
    assert(magic@ =~= packet@.take(2));
    if packet.len() == FRAME_LEN && same_magic(&magic, &FRAME_MAGIC_LE) {
        Route::Frame(to_array(packet))
    } else if packet.len() == COMMAND_LEN && same_magic(&magic, &COMMAND_MAGIC_LE) {
        Route::Command(to_array(packet))
    } else {
        Route::Skip { magic, len: packet.len() }
    }
}

fn same_magic(a: &[u8; 2], b: &[u8; 2]) -> (same: bool)
    ensures
        same == (a@ == b@),
{
    let same: bool = a[0] == b[0] && a[1] == b[1];
    assert(same ==> a@ =~= b@);
    same
}

/// The bytes of a packet of known length as an array.
fn to_array<const N: usize>(packet: &[u8]) -> (bytes: [u8; N])
    requires
        packet@.len() == N,
    ensures
        bytes@ == packet@,
{
    let mut bytes: [u8; N] = [0; N];
    let mut i: usize = 0;
    while i < N
        invariant
            i <= N,
            packet@.len() == N,
            forall|j: int| 0 <= j < i ==> bytes@[j] == packet@[j],
        decreases N - i,
    {
        bytes[i] = packet[i];
        i += 1;
    }
    assert(bytes@ =~= packet@);
    bytes
}

} // verus!
