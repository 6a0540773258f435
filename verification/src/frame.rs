use vstd::prelude::*;

verus! {

/// A decoded SBUS frame: sixteen proportional channels, each an 11-bit value
/// in `0..=2047`, plus two digital channel flags and the receiver-reported
/// `frame_lost` and `failsafe` indicators.
pub struct SbusFrame {
    pub channels: [u16; 16],
    pub channel17: bool,
    pub channel18: bool,
    pub frame_lost: bool,
    pub failsafe: bool,
}

/// Mathematical model of a frame: the channel sequence and the four flags.
#[verifier::ext_equal]
pub ghost struct FrameModel {
    pub channels: Seq<u16>,
    pub channel17: bool,
    pub channel18: bool,
    pub frame_lost: bool,
    pub failsafe: bool,
}

impl View for SbusFrame {
    type V = FrameModel;

    open spec fn view(&self) -> FrameModel {
        FrameModel {
            channels: self.channels@,
            channel17: self.channel17,
            channel18: self.channel18,
            frame_lost: self.frame_lost,
            failsafe: self.failsafe,
        }
    }
}

/// The all-zero frame: every channel 0, every flag false.
pub open spec fn frame_default() -> FrameModel {
    FrameModel {
        channels: Seq::new(16, |i: int| 0u16),
        channel17: false,
        channel18: false,
        frame_lost: false,
        failsafe: false,
    }
}

/// Well-formedness of a frame model: sixteen channels, each within 11 bits.
/// Established at construction and preserved by every decoder step, so a
/// value outside `0..=2047` is never observable.
pub open spec fn frame_wf(f: FrameModel) -> bool {
    &&& f.channels.len() == 16
    &&& forall|i: int| 0 <= i < 16 ==> f.channels[i] <= 0x7ff
}

impl Default for SbusFrame {
    /// A fresh frame with all channels zero and all flags clear.
    fn default() -> (r: Self)
        ensures
            r@ == frame_default(),
    {
        let r = SbusFrame {
            channels: [0u16; 16],
            channel17: false,
            channel18: false,
            frame_lost: false,
            failsafe: false,
        };
        proof {
            assert(r@.channels =~= frame_default().channels);
            assert(r@ =~= frame_default());
        }
        r
    }
}

} // verus!
