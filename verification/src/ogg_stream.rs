//! The packets of an Ogg Opus stream: each buffer written becomes a packet,
//! held back until the next one comes so that the last can be marked as the
//! end of the stream.
use vstd::prelude::*;

verus! {

/// How a packet ends (the `PacketWriteEndInfo` of the `ogg` crate).
#[derive(Debug, Clone, Copy, PartialEq, Eq, Structural)]
pub enum PacketEnd {
    NormalPacket,
    EndPage,
    EndStream,
}

/// How a packet read from a stream is written back: the end of the stream
/// where it was last in the stream, else the end of a page where it was last
/// in its page, else a normal packet.
pub fn packet_end_info(last_in_stream: bool, last_in_page: bool) -> (r: PacketEnd)
    ensures
        last_in_stream ==> r == PacketEnd::EndStream,
        !last_in_stream && last_in_page ==> r == PacketEnd::EndPage,
        !last_in_stream && !last_in_page ==> r == PacketEnd::NormalPacket,
{
    if last_in_stream {
        PacketEnd::EndStream
    } else if last_in_page {
        PacketEnd::EndPage
    } else {
        PacketEnd::NormalPacket
    }
}

/// The name under which a packet end is logged.
pub fn packet_end_name(info: PacketEnd) -> (r: &'static str)
    ensures
        info == PacketEnd::EndStream ==> r@ == "end_stream"@,
        info == PacketEnd::EndPage ==> r@ == "end_page"@,
        info == PacketEnd::NormalPacket ==> r@ == "normal"@,
{
    match info {
        PacketEnd::EndPage => "end_page",
        PacketEnd::NormalPacket => "normal",
        PacketEnd::EndStream => "end_stream",
    }
}

/// The serial number of the streams written.
pub const OPUS_STREAM_SERIAL: u32 = 2873470314;

/// A packet waiting to be written.
#[derive(Debug)]
pub struct OpusPacket {
    pub content: Vec<u8>,
    pub packet_num: u64,
    pub page_num: u64,
    pub absgp: u64,
    pub info: PacketEnd,
}

/// The bytes and end of a packet.
pub open spec fn packet_view(p: OpusPacket) -> (Seq<u8>, PacketEnd) {
    (p.content@, p.info)
}

/// The stream's serial number and position, and the packet held back.
#[derive(Debug)]
pub struct OpusPacketBuffer {
    serial: u32,
    absgp: u64,
    packet_num: u64,
    page_num: u64,
    packet: Option<OpusPacket>,
}

impl OpusPacketBuffer {
    /// A packet held back is a normal one, at the stream's position.
    #[verifier::type_invariant]
    spec fn inv(self) -> bool {
        self.packet matches Some(p) ==> p.info == PacketEnd::NormalPacket && p.absgp == self.absgp
            && p.packet_num == self.packet_num && p.page_num == self.page_num
    }

    /// The bytes of the packet held back, if any.
    pub closed spec fn held(&self) -> Option<Seq<u8>> {
        match self.packet {
            Some(p) => Some(p.content@),
            None => None,
        }
    }

    /// The stream's serial number.
    pub closed spec fn serial_number(&self) -> u32 {
        self.serial
    }

    /// The granule position, packet number and page number that packets get.
    pub closed spec fn position(&self) -> (u64, u64, u64) {
        (self.absgp, self.packet_num, self.page_num)
    }

    /// A buffer at the start of a stream, holding nothing back.
    pub fn new() -> (r: Self)
        ensures
            r.held() is None,
            r.serial_number() == OPUS_STREAM_SERIAL,
            r.position() == (0u64, 0u64, 0u64),
    {
        OpusPacketBuffer { serial: OPUS_STREAM_SERIAL, absgp: 0, packet_num: 0, page_num: 0, packet: None }
    }

    /// The stream's serial number.
    pub fn serial(&self) -> (r: u32)
        ensures
            r == self.serial_number(),
    {
        self.serial
    }

    /// Takes `buf` as the next packet and hands back the packet held until
    /// now, as a normal packet, to be written; answers that all of `buf` was taken.
    pub fn write(&mut self, buf: &[u8]) -> (r: (Option<OpusPacket>, usize))
        ensures
            final(self).held() == Some(buf@),
            match old(self).held() {
                Some(p) => r.0 matches Some(q) && packet_view(q) == (p, PacketEnd::NormalPacket)
                    && (q.absgp, q.packet_num, q.page_num) == old(self).position(),
                None => r.0 is None,
            },
            r.1 == buf@.len(),
            final(self).serial_number() == old(self).serial_number(),
            final(self).position() == old(self).position(),
    {
        proof {
            use_type_invariant(&*self);
        }
        let mut content: Vec<u8> = Vec::new();
        let mut i: usize = 0;
        while i < buf.len()
            invariant
                i <= buf@.len(),
                content@ == buf@.take(i as int),
            decreases buf@.len() - i,
        {
            content.push(buf[i]);
            i = i + 1;
            assert(buf@.take(i as int) == buf@.take(i - 1).push(buf@[i - 1]));
        }
        assert(buf@.take(buf@.len() as int) == buf@);
        let packet = OpusPacket {
            content,
            info: PacketEnd::NormalPacket,
            absgp: self.absgp,
            packet_num: self.packet_num,
            page_num: self.page_num,
        };
        let previous = self.replace_held(Some(packet));
        (previous, buf.len())
    }

    /// Holds `packet` back in place of the packet held, which it hands back.
    fn replace_held(&mut self, packet: Option<OpusPacket>) -> (r: Option<OpusPacket>)
        requires
            packet matches Some(p) ==> p.info == PacketEnd::NormalPacket && (p.absgp, p.packet_num, p.page_num)
                == old(self).position(),
        ensures
            r == old(self).packet,
            final(self).packet == packet,
            final(self).serial_number() == old(self).serial_number(),
            final(self).position() == old(self).position(),
    {
        let mut next = OpusPacketBuffer {
            serial: self.serial,
            absgp: self.absgp,
            packet_num: self.packet_num,
            page_num: self.page_num,
            packet,
        };
        std::mem::swap(&mut next, self);
        next.packet
    }

    /// Hands back the packet held, marked as the end of the stream.
    pub fn flush(&mut self) -> (r: Option<OpusPacket>)
        ensures
            final(self).held() is None,
            match old(self).held() {
                Some(p) => r matches Some(q) && packet_view(q) == (p, PacketEnd::EndStream)
                    && (q.absgp, q.packet_num, q.page_num) == old(self).position(),
                None => r is None,
            },
            final(self).serial_number() == old(self).serial_number(),
            final(self).position() == old(self).position(),
    {
        proof {
            use_type_invariant(&*self);
        }
        let held = self.replace_held(None);
        match held {
            Some(p) => Some(OpusPacket { info: PacketEnd::EndStream, ..p }),
            None => None,
        }
    }
}

/// The packets a buffer holding `held` emits for the buffers `writes`
/// written in order and then a flush.
pub open spec fn emitted(held: Option<Seq<u8>>, writes: Seq<Seq<u8>>) -> Seq<(Seq<u8>, PacketEnd)>
    decreases writes.len(),
{
    let first = match held {
        Some(p) => seq![(p, if writes.len() == 0 { PacketEnd::EndStream } else { PacketEnd::NormalPacket })],
        None => Seq::empty(),
    };
    if writes.len() == 0 {
        first
    } else {
        first + emitted(Some(writes[0]), writes.drop_first())
    }
}

/// The buffers of a stream, in order, each a normal packet but the last,
/// which ends the stream.
pub open spec fn as_stream(writes: Seq<Seq<u8>>) -> Seq<(Seq<u8>, PacketEnd)> {
    Seq::new(writes.len(), |i: int| (writes[i], if i == writes.len() - 1 { PacketEnd::EndStream } else { PacketEnd::NormalPacket }))
}

/// Writing buffers to a fresh stream and then flushing it emits each buffer
/// once, in the order written, every packet a normal one except the last,
/// which ends the stream.
pub proof fn lemma_stream_emits_every_write(writes: Seq<Seq<u8>>)
    ensures
        emitted(None, writes) == as_stream(writes),
{
    if writes.len() > 0 {
        lemma_emitted_from_held(writes[0], writes.drop_first());
        assert(seq![writes[0]] + writes.drop_first() == writes);
    } else {
        assert(as_stream(writes) =~= Seq::<(Seq<u8>, PacketEnd)>::empty());
    }
}

/// A buffer holding `p` with `rest` still to be written emits `p` first.
proof fn lemma_emitted_from_held(p: Seq<u8>, rest: Seq<Seq<u8>>)
    ensures
        emitted(Some(p), rest) == as_stream(seq![p] + rest),
        emitted(None, seq![p] + rest) == emitted(Some(p), rest),
    decreases rest.len(),
{
    let all = seq![p] + rest;
    assert(all[0] == p);
    assert(all.drop_first() == rest);
    if rest.len() == 0 {
        assert(as_stream(all) =~= seq![(p, PacketEnd::EndStream)]);
    } else {
        lemma_emitted_from_held(rest[0], rest.drop_first());
        assert(seq![rest[0]] + rest.drop_first() == rest);
        let tail = as_stream(rest);
        assert(as_stream(all) =~= seq![(p, PacketEnd::NormalPacket)] + tail);
    }
}

} // verus!
