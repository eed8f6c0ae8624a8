//! CAN FD frames and the USB CDC byte-stream envelope that carries them.

pub mod canfd;

pub use canfd::{canonical_data_len, is_canonical_data_len, CanFdError, CanFdFrame, MAX_CANFD_DATA_LEN};
pub mod usb_envelope;

pub use usb_envelope::{encode_usb_envelope, UsbEnvelopeDecoder, UsbEnvelopeError, AXDR_MAGIC};
