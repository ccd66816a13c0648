use motorcom::damiao::driver::{command_frame, special_command, store_parameters_request};
use motorcom::robstride::driver::{simple_frame, DEFAULT_HOST_ID};
use motorcom::robstride::frame::comm_type;
use motorcom::transport::{check_sendable, filter_for, filters_for, CanError, CanFrame, CanId};

#[test]
fn standard_and_extended_ids_are_masked() {
    assert_eq!(CanId::standard(0x10), CanId::Standard(0x10));
    assert_eq!(CanId::standard(0xFFFF), CanId::Standard(0x7FF));
    assert_eq!(CanId::extended(0xFFFF_FFFF), CanId::Extended(0x1FFF_FFFF));
    assert_eq!(CanId::standard(0x123).raw(), 0x123);
    assert_eq!(CanId::Extended(0x1234_5678).raw(), 0x1234_5678);
}

#[test]
fn frame_constructors_set_mode() {
    let c = CanFrame::classic(CanId::standard(0x10), vec![1, 2, 3]);
    assert_eq!(c.id, CanId::Standard(0x10));
    assert_eq!(c.data, vec![1, 2, 3]);
    assert!(!c.fd && !c.brs);
    let f = CanFrame::fd(CanId::extended(0x10), vec![0; 12], true);
    assert!(f.fd && f.brs);
}

#[test]
fn sendable_frames_fit_their_mode() {
    assert!(check_sendable(&CanFrame::classic(CanId::standard(1), vec![0; 8])).is_ok());
    assert!(matches!(
        check_sendable(&CanFrame::classic(CanId::standard(1), vec![0; 9])),
        Err(CanError::OversizedFrame(9))
    ));
    assert!(check_sendable(&CanFrame::fd(CanId::standard(1), vec![0; 64], false)).is_ok());
    assert!(matches!(
        check_sendable(&CanFrame::fd(CanId::standard(1), vec![0; 65], false)),
        Err(CanError::OversizedFrame(65))
    ));
    assert!(matches!(
        check_sendable(&CanFrame::classic(CanId::Standard(0x800), vec![0; 99])),
        Err(CanError::InvalidId)
    ));
    assert!(matches!(
        check_sendable(&CanFrame::classic(CanId::Extended(0x2000_0000), vec![])),
        Err(CanError::InvalidId)
    ));
}

#[test]
fn filters_match_one_id() {
    assert_eq!(filter_for(CanId::Standard(0x11)), (0x11, 0x8000_07FF));
    assert_eq!(filter_for(CanId::Extended(0x0200_FF05)), (0x8200_FF05, 0x9FFF_FFFF));
}

fn passes(word: u32, (id, mask): (u32, u32)) -> bool {
    word & mask == id & mask
}

#[test]
fn standard_filter_rejects_extended_frame_with_same_bits() {
    let f = filter_for(CanId::Standard(5));
    assert!(passes(5, f));
    assert!(!passes(6, f));
    assert!(!passes(5 | 0x8000_0000, f)); // Extended(5) on the wire
    let g = filter_for(CanId::Extended(5));
    assert!(passes(5 | 0x8000_0000, g));
    assert!(!passes(5, g));
}

#[test]
fn empty_id_list_accepts_everything() {
    assert_eq!(filters_for(&vec![]), vec![(0, 0)]);
    assert!(passes(0x8123_4567, filters_for(&vec![])[0]));
    assert_eq!(
        filters_for(&vec![CanId::Standard(1), CanId::Extended(2)]),
        vec![(1, 0x8000_07FF), (0x8000_0002, 0x9FFF_FFFF)]
    );
}

#[test]
fn protocol_frames_are_sendable() {
    assert!(check_sendable(&command_frame(0xFFFF, special_command(0xFC))).is_ok());
    assert!(check_sendable(&store_parameters_request(0x7FF)).is_ok());
    assert!(check_sendable(&simple_frame(0xFF, DEFAULT_HOST_ID, 0xFF)).is_ok());
    assert!(check_sendable(&simple_frame(comm_type::ENABLE, 0xFFFF, 0x01)).is_ok());
}
