//! The transport boundary of the device protocol, and the receive queue of the
//! USB CDC byte-stream transport.

use std::collections::VecDeque;
use std::time::Duration;

use vstd::prelude::*;
use vstd::string::StringSliceAdditionalSpecFns;

use crate::wire::canfd::{CanFdFrame, FrameView};
use crate::wire::usb_envelope::{scan, UsbEnvelopeDecoder, UsbEnvelopeError};

verus! {

#[derive(Debug)]
pub enum TransportError {
    NotConnected,
    Timeout,
    Io(String),
    InvalidFrame(UsbEnvelopeError),
}

/// Transport boundary used by the device protocol. Implementations own
/// transport-specific details such as USB CDC framing or native CAN FD
/// handles; protocol code above it exchanges only canonical frames.
pub trait FrameTransport: Send {
    fn send(&mut self, frame: &CanFdFrame) -> Result<(), TransportError>;

    fn receive(&mut self, timeout: Duration) -> Result<CanFdFrame, TransportError>;
}

/// The frames of a queue, as views.
pub open spec fn frame_views(q: Seq<CanFdFrame>) -> Seq<FrameView> {
    q.map_values(|f: CanFdFrame| f@)
}

/// Received bytes not yet framed, and frames not yet handed out.
#[derive(Debug)]
pub struct UsbFrameQueue {
    decoder: UsbEnvelopeDecoder,
    pending: VecDeque<CanFdFrame>,
}

/// The state of a receive queue: the unframed bytes and the queued frames.
pub struct QueueView {
    pub buffer: Seq<u8>,
    pub frames: Seq<FrameView>,
}

impl View for UsbFrameQueue {
    type V = QueueView;

    closed spec fn view(&self) -> QueueView {
        QueueView { buffer: self.decoder@, frames: frame_views(self.pending@) }
    }
}

impl UsbFrameQueue {
    pub fn new() -> (res: Self)
        ensures
            res@.buffer == Seq::<u8>::empty(),
            res@.frames == Seq::<FrameView>::empty(),
    {
        let q = UsbFrameQueue { decoder: UsbEnvelopeDecoder::default(), pending: VecDeque::new() };
        assert(q@.frames == Seq::<FrameView>::empty());
        q
    }

    /// Feeds bytes read from the port; every complete envelope they finish is
    /// queued, in order.
    pub fn accept(&mut self, bytes: &[u8]) -> (res: Result<(), TransportError>)
        ensures
            res is Ok,
            final(self)@.frames == old(self)@.frames + scan(old(self)@.buffer + bytes@).0,
            final(self)@.buffer == scan(old(self)@.buffer + bytes@).1,
    {
        let mut decoded = self.decoder.push(bytes);
        let ghost frames = scan(old(self)@.buffer + bytes@).0;
        let ghost all = decoded@;
        let ghost mut i: int = 0;
        while decoded.len() > 0
            invariant
                0 <= i <= frames.len(),
                crate::wire::usb_envelope::all_decoded(all, frames),
                decoded@ == all.skip(i),
                frame_views(self.pending@) == old(self)@.frames + frames.take(i),
                self.decoder@ == scan(old(self)@.buffer + bytes@).1,
            decreases decoded@.len(),
        {
            let ghost rest = decoded@;
            let next = decoded.remove(0);
            assert(next == all[i]);
            assert(decoded@ == all.skip(i + 1));
            match next {
                Ok(frame) => {
                    let ghost before = self.pending@;
                    self.pending.push_back(frame);
                    proof {
                        assert(frame_views(self.pending@) == frame_views(before).push(frames[i]));
                        assert(frames.take(i + 1) == frames.take(i).push(frames[i]));
                    }
                },
                Err(error) => {
                    assert(false);
                    return Err(TransportError::InvalidFrame(error));
                },
            }
            proof {
                i = i + 1;
            }
        }
        assert(frames.take(frames.len() as int) == frames);
        Ok(())
    }

    /// The oldest queued frame.
    pub fn pop(&mut self) -> (res: Option<CanFdFrame>)
        ensures
            old(self)@.frames.len() == 0 ==> (res is None && final(self)@ == old(self)@),
            old(self)@.frames.len() > 0 ==> (res matches Some(f) && f@ == old(self)@.frames[0]
                && final(self)@.frames == old(self)@.frames.drop_first() && final(self)@.buffer
                == old(self)@.buffer),
    {
        let res = self.pending.pop_front();
        proof {
            if old(self).pending@.len() > 0 {
                assert(frame_views(self.pending@) == frame_views(old(self).pending@).drop_first());
            }
        }
        res
    }
}

/// The serial device names of USB CDC ACM devices and USB serial adapters
/// on Linux: `/dev/ttyACM…` and `/dev/ttyUSB…`.
pub fn is_usb_serial_path(path: &str) -> (res: bool)
    ensures
        res == (crate::parameter_service::sym_starts(path.spec_bytes(), "/dev/ttyACM")
            || crate::parameter_service::sym_starts(path.spec_bytes(), "/dev/ttyUSB")),
{
    let bytes = path.as_bytes();
    crate::parameter_service::starts(bytes, "/dev/ttyACM") || crate::parameter_service::starts(bytes, "/dev/ttyUSB")
}

/// The serial device names of USB serial devices on macOS: `/dev/cu.usb…`
/// and `/dev/tty.usb…`.
pub fn is_macos_usb_serial_path(path: &str) -> (res: bool)
    ensures
        res == (crate::parameter_service::sym_starts(path.spec_bytes(), "/dev/cu.usb")
            || crate::parameter_service::sym_starts(path.spec_bytes(), "/dev/tty.usb")),
{
    let bytes = path.as_bytes();
    crate::parameter_service::starts(bytes, "/dev/cu.usb") || crate::parameter_service::starts(bytes, "/dev/tty.usb")
}

} // verus!
