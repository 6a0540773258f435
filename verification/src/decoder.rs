use vstd::prelude::*;
use vstd::arithmetic::div_mod::lemma_fundamental_div_mod;
use crate::frame::{FrameModel, SbusFrame, frame_default, frame_wf};

verus! {

/// The decoder's read state: a byte cursor within the 25-byte frame and the
/// frame being assembled. Cursor 0 means "searching for the sync byte";
/// cursors 1 to 22 are the payload bytes, 23 the flag byte, 24 the end byte.
pub struct SbusReadState {
    pub bytei: u16,
    pub frame: SbusFrame,
}

/// Mathematical model of the decoder: cursor and frame model.
#[verifier::ext_equal]
pub ghost struct DecoderModel {
    pub bytei: int,
    pub frame: FrameModel,
}

impl View for SbusReadState {
    type V = DecoderModel;

    open spec fn view(&self) -> DecoderModel {
        DecoderModel { bytei: self.bytei as int, frame: self.frame@ }
    }
}

/// The idle decoder: cursor 0, frame all zero.
pub open spec fn decoder_default() -> DecoderModel {
    DecoderModel { bytei: 0, frame: frame_default() }
}

/// Well-formedness of a decoder model: cursor within the frame and a
/// well-formed frame.
pub open spec fn decoder_wf(s: DecoderModel) -> bool {
    &&& 0 <= s.bytei <= 24
    &&& frame_wf(s.frame)
}

/// Effect of one payload byte on the channel array. The byte's eight bits
/// start at offset `(bytei - 1) * 8` of the 176-bit channel stream; they are
/// shifted into place within the 16-bit working value, merged into the
/// channel holding that offset, and any bits that crossed the 11-bit channel
/// boundary are carried into the next channel.
pub open spec fn payload_channels(chs: Seq<u16>, bytei: int, c: u8) -> Seq<u16> {
    let biti = (bytei - 1) * 8;
    let sh = (biti % 11) as u16;
    let ci = biti / 11;
    let x = (c as u16) << sh;
    let y = x >> 11;
    let merged = chs.update(ci, (chs[ci] | x) & 0x7ff);
    if y != 0 {
        merged.update(ci + 1, merged[ci + 1] | y)
    } else {
        merged
    }
}

/// The four status flags, decoded from bits 0 to 3 of the flag byte.
pub open spec fn flags_frame(f: FrameModel, c: u8) -> FrameModel {
    FrameModel {
        channels: f.channels,
        channel17: c & 1 != 0,
        channel18: c & 2 != 0,
        frame_lost: c & 4 != 0,
        failsafe: c & 8 != 0,
    }
}

/// The decoder state after feeding one byte `c` in state `s`.
pub open spec fn step_state(s: DecoderModel, c: u8) -> DecoderModel {
    if s.bytei == 0 {
        if c == 0x0f {
            DecoderModel { bytei: 1, frame: frame_default() }
        } else {
            s
        }
    } else if s.bytei < 23 {
        DecoderModel {
            bytei: s.bytei + 1,
            frame: FrameModel { channels: payload_channels(s.frame.channels, s.bytei, c), ..s.frame },
        }
    } else if s.bytei == 23 {
        DecoderModel { bytei: 24, frame: flags_frame(s.frame, c) }
    } else {
        DecoderModel { bytei: 0, frame: s.frame }
    }
}

/// Whether feeding byte `c` in state `s` completes a frame: only the end
/// byte of a frame in progress, and only when it equals zero.
pub open spec fn step_done(s: DecoderModel, c: u8) -> bool {
    s.bytei >= 24 && c == 0
}

/// The decoder state after feeding the bytes of `bytes`, in order.
pub open spec fn feed_all(s: DecoderModel, bytes: Seq<u8>) -> DecoderModel
    decreases bytes.len(),
{
    if bytes.len() == 0 {
        s
    } else {
        step_state(feed_all(s, bytes.drop_last()), bytes.last())
    }
}

/// The completion value reported while feeding `bytes`: whether the feed of
/// `bytes[k]`, coming after `bytes[0..k]`, reports a complete frame.
pub open spec fn feed_done(s: DecoderModel, bytes: Seq<u8>, k: int) -> bool
    recommends
        0 <= k < bytes.len(),
{
    step_done(feed_all(s, bytes.take(k)), bytes[k])
}

impl Default for SbusReadState {
    /// A fresh decoder: idle, with an all-zero frame.
    fn default() -> (r: Self)
        ensures
            r@ == decoder_default(),
    {
        SbusReadState { bytei: 0, frame: SbusFrame::default() }
    }
}

/// Discards any partial frame and returns the decoder to its idle state.
pub fn process_idle(state: &mut SbusReadState)
    ensures
        final(state)@ == decoder_default(),
{
    *state = SbusReadState::default();
}

/// Feeds one received byte to the decoder; returns true exactly when a
/// complete, well-terminated 25-byte frame is now available in `state.frame`.
/// Any byte value is accepted in any state; the decoder never fails.
pub fn process_char(state: &mut SbusReadState, c: u8) -> (done: bool)
    ensures
        final(state)@ == step_state(old(state)@, c),
        done == step_done(old(state)@, c),
        0 <= final(state)@.bytei <= 24,
        frame_wf(old(state)@.frame) ==> frame_wf(final(state)@.frame),
{
    if state.bytei == 0 {
        if c == 0x0f {
            state.bytei = state.bytei + 1;
            state.frame = SbusFrame::default();
        }
        false
    } else if state.bytei < 23 {
        let c16: u16 = c as u16;
        let biti: u16 = (state.bytei - 1) * 8;
        let x = c16 << (biti % 11);
        let y = x >> 11;
        let ci: usize = (biti / 11) as usize;
        proof {
            lemma_fundamental_div_mod(biti as int, 11);
            assert((c16 << (biti % 11)) >> 11 != 0 ==> biti % 11 >= 4) by (bit_vector)
                requires
                    c16 < 256,
            ;
        }
        state.frame.channels[ci] = (state.frame.channels[ci] | x) & 0x7ff;
        if y != 0 {
            state.frame.channels[ci + 1] = state.frame.channels[ci + 1] | y;
        }
        state.bytei = state.bytei + 1;
        proof {
            assert(state@.frame.channels =~= payload_channels(old(state)@.frame.channels, old(state)@.bytei, c));
            let a = old(state)@.frame.channels[ci as int];
            let b = old(state)@.frame.channels[ci + 1];
            assert(((a | x) & 0x7ff) <= 0x7ff) by (bit_vector);
            assert(b <= 0x7ff ==> (b | (x >> 11)) <= 0x7ff) by (bit_vector);
        }
        false
    } else if state.bytei == 23 {
        state.frame.channel17 = c & 1 != 0;
        state.frame.channel18 = c & 2 != 0;
        state.frame.frame_lost = c & 4 != 0;
        state.frame.failsafe = c & 8 != 0;
        state.bytei = state.bytei + 1;
        false
    } else {
        state.bytei = 0;
        // completion is reported only for a zero end byte; on any other
        // value the partial frame is left as is and must not be trusted
        c == 0
    }
}

} // verus!
