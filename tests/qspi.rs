use pounder::error::Error;
use pounder::qspi::{QspiInterface, QspiTransfer};

fn decode(bus: &[u8]) -> Vec<u8> {
    bus.chunks(4)
        .map(|e| {
            let mut b = 0u8;
            for (j, byte) in e.iter().enumerate() {
                let pair = 3 - j;
                b |= (byte & 1) << (2 * pair);
                b |= ((byte >> 4) & 1) << (2 * pair + 1);
            }
            b
        })
        .collect()
}

fn frame(t: &QspiTransfer) -> Vec<u8> {
    let mut v = vec![t.address];
    v.extend_from_slice(&t.payload);
    v
}

#[test]
fn two_wire_write_of_one_byte() {
    let q = QspiInterface::new();
    let t = q.write(0x81, &[0x5A]).unwrap();
    assert_eq!(t.address, 0x10);
    assert_eq!(t.payload, vec![0x00, 0x00, 0x01, 0x01, 0x01, 0x10, 0x10]);
    assert_eq!(decode(&frame(&t)), vec![0x81, 0x5A]);
}

#[test]
fn two_wire_write_of_two_bytes() {
    let q = QspiInterface::new();
    let t = q.write(0x04, &[0xFF, 0x00]).unwrap();
    assert_eq!(frame(&t).len(), 12);
    assert_eq!(&frame(&t)[4..8], &[0x11, 0x11, 0x11, 0x11]);
    assert_eq!(&frame(&t)[8..12], &[0, 0, 0, 0]);
    assert_eq!(decode(&frame(&t)), vec![0x04, 0xFF, 0x00]);
}

#[test]
fn two_wire_round_trip_of_every_byte() {
    let q = QspiInterface::new();
    for a in 0..=255u8 {
        let t = q.write(a, &[a.wrapping_mul(7), !a]).unwrap();
        assert_eq!(decode(&frame(&t)), vec![a, a.wrapping_mul(7), !a]);
    }
}

#[test]
fn two_wire_write_of_three_bytes_is_out_of_bounds() {
    let q = QspiInterface::new();
    assert_eq!(q.write(0x01, &[1, 2, 3]), Err(Error::Bounds));
}

#[test]
fn read_in_two_wire_mode_is_invalid() {
    let q = QspiInterface::new();
    assert_eq!(q.read(0x05), Err(Error::InvalidState));
}

#[test]
fn four_bit_mode_passes_writes_and_marks_reads() {
    let mut q = QspiInterface::new();
    assert_eq!(q.configure_mode(ad9959::Mode::FourBitSerial), Ok(()));
    let t = q.write(0x04, &[1, 2, 3, 4]).unwrap();
    assert_eq!(t.address, 0x04);
    assert_eq!(t.payload, vec![1, 2, 3, 4]);
    assert_eq!(q.read(0x05), Ok(0x85));
}

#[test]
fn other_modes_are_refused() {
    let mut q = QspiInterface::new();
    q.configure_mode(ad9959::Mode::TwoBitSerial).unwrap();
    assert_eq!(q.write(0x00, &[0]), Err(Error::InvalidState));
    assert_eq!(q.read(0x00), Err(Error::InvalidState));
}

#[test]
fn write_while_streaming_is_invalid() {
    let mut q = QspiInterface::new();
    q.configure_mode(ad9959::Mode::FourBitSerial).unwrap();
    assert_eq!(q.start_stream(false), Ok(()));
    assert_eq!(q.write(0x04, &[1]), Err(Error::InvalidState));
}

#[test]
fn start_stream_while_busy_fails() {
    let mut q = QspiInterface::new();
    q.configure_mode(ad9959::Mode::FourBitSerial).unwrap();
    assert_eq!(q.start_stream(true), Err(Error::Qspi));
    assert!(q.write(0x04, &[1]).is_ok());
}

#[test]
fn two_wire_write_while_streaming_is_invalid() {
    let mut q = QspiInterface::new();
    assert_eq!(q.start_stream(false), Ok(()));
    assert_eq!(q.write(0x00, &[0xF0]), Err(Error::InvalidState));
    assert_eq!(q.write(0x00, &[]), Err(Error::InvalidState));
}
