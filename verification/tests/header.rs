use esb::payload::HeaderBytes;
use esb::Error;
use esb::EsbHeader;
use esb::EsbHeaderBuilder;

#[test]
fn header_round_trip_plain() {
    let header = EsbHeader::new(4, 0, 2, false).unwrap();
    let bytes = header.into_bytes();
    let back = EsbHeader::from_bytes(bytes);
    assert_eq!(back, header);
    assert_eq!(back.payload_len(), 4);
    assert_eq!(back.pid(), 0);
    assert_eq!(back.no_ack(), false);
}

#[test]
fn header_round_trip_no_ack() {
    let header = EsbHeader::new(252, 3, 7, true).unwrap();
    let back = EsbHeader::from_bytes(header.into_bytes());
    assert_eq!(back, header);
    assert_eq!(back.payload_len(), 252);
    assert_eq!(back.pid(), 3);
    assert_eq!(back.no_ack(), true);
}

#[test]
fn header_round_trip_all_field_corners() {
    for &length in &[0u8, 1, 32, 252] {
        for pid in 0u8..4 {
            for pipe in 0u8..8 {
                for &no_ack in &[false, true] {
                    let header = EsbHeader::new(length, pid, pipe, no_ack).unwrap();
                    let back = EsbHeader::from_bytes(header.into_bytes());
                    assert_eq!(back, header);
                    assert_eq!(back.payload_len(), length as usize);
                    assert_eq!(back.pid(), pid);
                    assert_eq!(back.no_ack(), no_ack);
                }
            }
        }
    }
}

#[test]
fn header_byte_layout_is_dma_ordered() {
    // rssi, pipe, then the two bytes the radio consumes: length, pid_no_ack.
    let header = EsbHeader::new(4, 1, 2, false).unwrap();
    let HeaderBytes(bytes) = header.into_bytes();
    assert_eq!(bytes, [0, 2, 4, 0b0000_0011]);
}

#[test]
fn header_builder_matches_new() {
    let built = EsbHeader::build()
        .max_payload(252)
        .pid(0)
        .pipe(1)
        .no_ack(true)
        .check();
    let direct = EsbHeader::new(252, 0, 1, true);
    assert_eq!(built, direct);
}

#[test]
fn header_rejects_length_253() {
    assert_eq!(EsbHeader::new(253, 0, 0, true), Err(Error::InvalidParameters));
}

#[test]
fn header_rejects_pid_4() {
    assert_eq!(EsbHeader::new(0, 4, 0, true), Err(Error::InvalidParameters));
}

#[test]
fn header_rejects_pipe_8() {
    assert_eq!(EsbHeader::new(0, 0, 8, true), Err(Error::InvalidParameters));
}

#[test]
fn header_builder_rejects_out_of_range() {
    assert_eq!(
        EsbHeaderBuilder::default().max_payload(255).check(),
        Err(Error::InvalidParameters)
    );
    assert_eq!(
        EsbHeaderBuilder::default().pipe(9).check(),
        Err(Error::InvalidParameters)
    );
    assert_eq!(
        EsbHeaderBuilder::default().pid(5).check(),
        Err(Error::InvalidParameters)
    );
}

#[test]
fn header_accessor_rssi() {
    let header = EsbHeader::new(1, 1, 1, false).unwrap();
    assert_eq!(header.rssi(), 0);
    assert_eq!(EsbHeader::header_size(), 4);
    assert_eq!(EsbHeader::rssi_idx(), 0);
    assert_eq!(EsbHeader::pipe_idx(), 1);
    assert_eq!(EsbHeader::length_idx(), 2);
    assert_eq!(EsbHeader::pid_no_ack_idx(), 3);
    assert_eq!(EsbHeader::dma_payload_offset(), 2);
}
