//! Bus transfers: what the library asks the transport to send.

use vstd::prelude::*;

verus! {

/// One operation on the command/data bus.
#[derive(Debug, Clone, PartialEq, Eq)]
pub enum Transfer {
    /// Bytes sent with the command/data line in command position.
    Commands(Vec<u8>),
    /// Bytes sent with the command/data line in data position.
    Data(Vec<u8>),
}

/// Mathematical value of a [`Transfer`].
pub enum Packet {
    /// Command bytes.
    Commands(Seq<u8>),
    /// Data bytes.
    Data(Seq<u8>),
}

impl View for Transfer {
    type V = Packet;

    open spec fn view(&self) -> Packet {
        match self {
            Transfer::Commands(b) => Packet::Commands(b@),
            Transfer::Data(b) => Packet::Data(b@),
        }
    }
}

/// The packets of a list of transfers, in order.
pub open spec fn packets(ts: Seq<Transfer>) -> Seq<Packet> {
    ts.map_values(|t: Transfer| t@)
}

/// Appending a transfer appends its packet.
pub proof fn lemma_packets_push(ts: Seq<Transfer>, t: Transfer)
    ensures
        packets(ts.push(t)) == packets(ts).push(t@),
{
    assert(packets(ts.push(t)) =~= packets(ts).push(t@));
}

/// Appends `t` to `out`.
pub fn push_transfer(out: &mut Vec<Transfer>, t: Transfer)
    ensures
        packets(final(out)@) == packets(old(out)@).push(t@),
{
    proof {
        lemma_packets_push(out@, t);
    }
    out.push(t);
}

} // verus!
