use vstd::prelude::*;

verus! {

/// Largest data field of a CAN FD frame.
pub const MAX_CANFD_DATA_LEN: usize = 64;

/// Largest 11-bit standard CAN identifier.
pub const MAX_STANDARD_ID: u16 = 0x07ff;

#[derive(Debug, Clone, Copy, PartialEq, Eq, Structural)]
pub enum CanFdError {
    /// The identifier does not fit the 11-bit standard identifier range.
    InvalidStandardId(u16),
    /// The payload is longer than a CAN FD data field.
    PayloadTooLong(usize),
    /// The data field length is not one of the CAN FD DLC lengths.
    NonCanonicalLength(usize),
}

/// The data-field lengths a CAN FD DLC can express.
pub open spec fn spec_is_canonical_len(len: int) -> bool {
    ||| 0 <= len <= 8
    ||| len == 12
    ||| len == 16
    ||| len == 20
    ||| len == 24
    ||| len == 32
    ||| len == 48
    ||| len == 64
}

/// The smallest canonical data-field length that holds `required` bytes.
pub open spec fn spec_canonical_len(required: int) -> int {
    if required <= 8 {
        required
    } else if required <= 12 {
        12
    } else if required <= 16 {
        16
    } else if required <= 20 {
        20
    } else if required <= 24 {
        24
    } else if required <= 32 {
        32
    } else if required <= 48 {
        48
    } else {
        64
    }
}

/// `n` zero bytes.
pub open spec fn zeros(n: int) -> Seq<u8> {
    Seq::new(n as nat, |i: int| 0u8)
}

/// A classic-identifier CAN FD frame whose data field always has a canonical length.
#[derive(Debug, Clone, PartialEq, Eq)]
pub struct CanFdFrame {
    pub id: u16,
    data: Vec<u8>,
}

/// The mathematical content of a frame: its identifier and data field.
pub struct FrameView {
    pub id: u16,
    pub data: Seq<u8>,
}

impl FrameView {
    /// A frame as the constructors produce it: 11-bit identifier, canonical length.
    pub open spec fn wf(self) -> bool {
        &&& self.id <= MAX_STANDARD_ID
        &&& spec_is_canonical_len(self.data.len() as int)
    }
}

impl View for CanFdFrame {
    type V = FrameView;

    closed spec fn view(&self) -> FrameView {
        FrameView { id: self.id, data: self.data@ }
    }
}

impl CanFdFrame {
    /// The identifier as seen by verified code.
    pub fn id_of(&self) -> (res: u16)
        ensures
            res == self@.id,
    {
        self.id
    }

    /// Builds a frame, zero-padding `payload` up to the next canonical length.
    pub fn new(id: u16, payload: &[u8]) -> (res: Result<Self, CanFdError>)
        ensures
            id > MAX_STANDARD_ID ==> res == Err::<Self, CanFdError>(CanFdError::InvalidStandardId(id)),
            id <= MAX_STANDARD_ID && payload@.len() > MAX_CANFD_DATA_LEN ==> res == Err::<Self, CanFdError>(
                CanFdError::PayloadTooLong(payload@.len() as usize),
            ),
            id <= MAX_STANDARD_ID && payload@.len() <= MAX_CANFD_DATA_LEN ==> (res matches Ok(frame) && {
                &&& frame@.id == id
                &&& frame@.data == payload@ + zeros(
                    spec_canonical_len(payload@.len() as int) - payload@.len(),
                )
            }),
            res matches Ok(frame) ==> frame@.wf(),
    {
        if id > MAX_STANDARD_ID {
            return Err(CanFdError::InvalidStandardId(id));
        }
        let len = match canonical_data_len(payload.len()) {
            Ok(len) => len,
            Err(error) => return Err(error),
        };
        let mut data: Vec<u8> = Vec::with_capacity(len);
        let mut i: usize = 0;
        while i < payload.len()
            invariant
                i <= payload@.len(),
                data@ == payload@.subrange(0, i as int),
            decreases payload@.len() - i,
        {
            data.push(payload[i]);
            i = i + 1;
        }
        while data.len() < len
            invariant
                payload@.len() <= data@.len() <= len,
                data@ == payload@ + zeros(data@.len() - payload@.len()),
            decreases len - data@.len(),
        {
            data.push(0u8);
            assert(data@ =~= payload@ + zeros(data@.len() - payload@.len()));
        }
        Ok(CanFdFrame { id, data })
    }

    /// Adopts a data field that already has a canonical length.
    pub fn from_canonical_data(id: u16, data: Vec<u8>) -> (res: Result<Self, CanFdError>)
        ensures
            id > MAX_STANDARD_ID ==> res == Err::<Self, CanFdError>(CanFdError::InvalidStandardId(id)),
            id <= MAX_STANDARD_ID && !spec_is_canonical_len(data@.len() as int) ==> res == Err::<
                Self,
                CanFdError,
            >(CanFdError::NonCanonicalLength(data@.len() as usize)),
            id <= MAX_STANDARD_ID && spec_is_canonical_len(data@.len() as int) ==> (res matches Ok(frame)
                && frame@.id == id && frame@.data == data@),
            res matches Ok(frame) ==> frame@.wf(),
    {
        if id > MAX_STANDARD_ID {
            return Err(CanFdError::InvalidStandardId(id));
        }
        if !is_canonical_data_len(data.len()) {
            return Err(CanFdError::NonCanonicalLength(data.len()));
        }
        Ok(CanFdFrame { id, data })
    }

    pub fn data(&self) -> (res: &[u8])
        ensures
            res@ == self@.data,
    {
        self.data.as_slice()
    }

    pub fn data_len(&self) -> (res: usize)
        ensures
            res == self@.data.len(),
    {
        self.data.len()
    }
}

/// The canonical data-field length for a payload of `required` bytes.
pub fn canonical_data_len(required: usize) -> (res: Result<usize, CanFdError>)
    ensures
        required > MAX_CANFD_DATA_LEN ==> res == Err::<usize, CanFdError>(CanFdError::PayloadTooLong(required)),
        required <= MAX_CANFD_DATA_LEN ==> res == Ok::<usize, CanFdError>(spec_canonical_len(required as int) as usize),
        res matches Ok(len) ==> spec_is_canonical_len(len as int) && required <= len,
{
    if required > MAX_CANFD_DATA_LEN {
        return Err(CanFdError::PayloadTooLong(required));
    }
    let len = if required <= 8 {
        required
    } else if required <= 12 {
        12
    } else if required <= 16 {
        16
    } else if required <= 20 {
        20
    } else if required <= 24 {
        24
    } else if required <= 32 {
        32
    } else if required <= 48 {
        48
    } else {
        MAX_CANFD_DATA_LEN
    };
    Ok(len)
}

/// Whether `len` is a CAN FD DLC length.
pub fn is_canonical_data_len(len: usize) -> (res: bool)
    ensures
        res == spec_is_canonical_len(len as int),
{
    len <= 8 || len == 12 || len == 16 || len == 20 || len == 24 || len == 32 || len == 48 || len == MAX_CANFD_DATA_LEN
}

/// Padding a canonical length is the identity, and the padded length never
/// shrinks a payload.
pub proof fn lemma_canonical_len_idempotent(required: int)
    requires
        0 <= required <= MAX_CANFD_DATA_LEN,
    ensures
        spec_is_canonical_len(spec_canonical_len(required)),
        required <= spec_canonical_len(required) <= MAX_CANFD_DATA_LEN,
        spec_is_canonical_len(required) ==> spec_canonical_len(required) == required,
{
}

} // verus!
