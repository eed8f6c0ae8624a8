use nmixx::wire::{canonical_data_len, encode_usb_envelope, CanFdError, CanFdFrame, UsbEnvelopeDecoder, MAX_CANFD_DATA_LEN};

#[test]
fn canonical_lengths_match_axdr_firmware() {
    assert_eq!(canonical_data_len(0), Ok(0));
    assert_eq!(canonical_data_len(8), Ok(8));
    assert_eq!(canonical_data_len(9), Ok(12));
    assert_eq!(canonical_data_len(19), Ok(20));
    assert_eq!(canonical_data_len(33), Ok(48));
    assert_eq!(canonical_data_len(MAX_CANFD_DATA_LEN), Ok(MAX_CANFD_DATA_LEN));
    assert!(canonical_data_len(MAX_CANFD_DATA_LEN + 1).is_err());
}

#[test]
fn frame_zero_pads_to_canonical_length() {
    let frame = CanFdFrame::new(0x01c1, &[1; 19]).unwrap();
    assert_eq!(frame.data_len(), 20);
    assert_eq!(&frame.data()[..19], &[1; 19]);
    assert_eq!(frame.data()[19], 0);
}

#[test]
fn decoder_handles_fragmented_stream_and_noise() {
    let frame = CanFdFrame::new(0x01c1, &[1; 19]).unwrap();
    let encoded = encode_usb_envelope(&frame);

    let mut decoder = UsbEnvelopeDecoder::default();
    assert!(decoder.push(b"noiseAX").is_empty());
    let mut remainder = Vec::new();
    remainder.extend_from_slice(&encoded[2..10]);
    assert!(decoder.push(&remainder).is_empty());
    let result = decoder.push(&encoded[10..]);
    assert_eq!(result.len(), 1);
    assert_eq!(result[0].as_ref().unwrap(), &frame);
}

#[test]
fn frame_rejects_extended_identifier_and_long_payload() {
    assert_eq!(CanFdFrame::new(0x0800, &[]), Err(CanFdError::InvalidStandardId(0x0800)));
    assert_eq!(CanFdFrame::new(0x0001, &[0; 65]), Err(CanFdError::PayloadTooLong(65)));
    assert_eq!(
        CanFdFrame::from_canonical_data(0x0001, vec![0; 9]),
        Err(CanFdError::NonCanonicalLength(9))
    );
    assert_eq!(
        CanFdFrame::from_canonical_data(0x0800, vec![0; 8]),
        Err(CanFdError::InvalidStandardId(0x0800))
    );
}

#[test]
fn envelope_bytes_are_magic_id_length_data() {
    let frame = CanFdFrame::new(0x0401, &[9, 8, 7]).unwrap();
    assert_eq!(encode_usb_envelope(&frame), vec![b'A', b'X', b'D', b'R', 0x01, 0x04, 3, 9, 8, 7]);
}

#[test]
fn decoder_skips_invalid_header_and_decodes_back_to_back_frames() {
    let a = CanFdFrame::new(0x0041, &[1, 2]).unwrap();
    let b = CanFdFrame::new(0x0042, &[3; 9]).unwrap();
    let mut stream = b"AXDR\xff\xff\x05".to_vec();
    stream.extend(encode_usb_envelope(&a));
    stream.extend(encode_usb_envelope(&b));
    let mut decoder = UsbEnvelopeDecoder::default();
    let frames = decoder.push(&stream);
    assert_eq!(frames.len(), 2);
    assert_eq!(frames[0].as_ref().unwrap(), &a);
    assert_eq!(frames[1].as_ref().unwrap(), &b);
}

#[test]
fn split_pushes_decode_like_one_push() {
    let a = CanFdFrame::new(0x0041, &[7; 12]).unwrap();
    let mut stream = b"xxAX".to_vec();
    stream.extend(encode_usb_envelope(&a));
    stream.extend(b"AXD");
    for split in 0..stream.len() {
        let mut one = UsbEnvelopeDecoder::default();
        let whole = one.push(&stream);
        let mut two = UsbEnvelopeDecoder::default();
        let mut parts = two.push(&stream[..split]);
        parts.extend(two.push(&stream[split..]));
        assert_eq!(whole, parts);
        assert_eq!(whole.len(), 1);
    }
}

#[test]
fn byte_at_a_time_and_uneven_chunks_decode_like_one_push() {
    let a = CanFdFrame::new(0x0041, &[7; 12]).unwrap();
    let b = CanFdFrame::new(0x0123, &[1, 2, 3]).unwrap();
    let mut stream = b"noAXDR\xff\xff\x05".to_vec();
    stream.extend(encode_usb_envelope(&a));
    stream.extend(b"AX");
    stream.extend(encode_usb_envelope(&b));
    let whole = UsbEnvelopeDecoder::default().push(&stream);
    assert_eq!(whole.len(), 2);
    for size in 1..8 {
        let mut decoder = UsbEnvelopeDecoder::default();
        let mut parts = Vec::new();
        for chunk in stream.chunks(size) {
            parts.extend(decoder.push(chunk));
        }
        assert_eq!(whole, parts, "chunks of {size}");
    }
}

#[test]
fn pushing_chunks_in_turn_decodes_like_one_push() {
    let a = CanFdFrame::new(0x0041, &[7; 12]).unwrap();
    let b = CanFdFrame::new(0x07ff, &[]).unwrap();
    let mut stream = b"\x00AXDR\x00\x08\x03".to_vec();
    stream.extend(encode_usb_envelope(&a));
    stream.extend(encode_usb_envelope(&b));
    stream.extend(b"AXD");
    let mut one = UsbEnvelopeDecoder::default();
    let whole = one.push(&stream);
    assert_eq!(whole.len(), 2);
    assert!(whole.iter().all(|r| r.is_ok()));
    for size in [1, 2, 5, 9, 64] {
        let chunks: Vec<Vec<u8>> = stream.chunks(size).map(|c| c.to_vec()).collect();
        let mut decoder = UsbEnvelopeDecoder::default();
        assert_eq!(decoder.push_chunks(&chunks), whole, "chunks of {size}");
        let rest = decoder.push(b"R\x01\x00\x00");
        assert_eq!(rest.len(), 1);
    }
    assert!(UsbEnvelopeDecoder::default().push_chunks(&[]).is_empty());
}
