use motorcom::robstride::driver::{
    device_info, operation_control_frame, parameter_from_reply, read_parameter_frame,
    reply_step, set_device_id_frame, simple_frame, write_parameter_request, ReplyStep,
    DEFAULT_HOST_ID,
};
use motorcom::robstride::frame::{comm_type, decode, encode};
use motorcom::robstride::mit::{decode_fields, encode_fields};
use motorcom::robstride::parameters::{
    all_parameters, lookup, mode, vbus, DataType, ParameterValue,
};
use motorcom::robstride::status::{FaultReport, StatusFlags};
use motorcom::robstride::Error;
use motorcom::transport::{CanFrame, CanId};

// ---------------------------------------------------------------- frame

#[test]
fn roundtrip() {
    let id = encode(comm_type::OPERATION_CONTROL, 0x7FFF, 0x05);
    let (c, e, d) = decode(id);
    assert_eq!(c, 1);
    assert_eq!(e, 0x7FFF);
    assert_eq!(d, 0x05);
}

#[test]
fn truncates_comm_type_to_5_bits() {
    let id = encode(0xFF, 0, 1);
    let (c, _, _) = decode(id);
    assert_eq!(c, 0x1F);
}

#[test]
fn encode_fits_29_bits() {
    assert_eq!(encode(0x1F, 0xFFFF, 0xFF), 0x1FFF_FFFF);
    assert_eq!(encode(comm_type::READ_PARAMETER, 0x00FF, 0x01), 0x1100_FF01);
    assert_eq!(decode(0x1100_FF01), (17, 0x00FF, 0x01));
}

// ------------------------------------------------------------------ mit

#[test]
fn position_code_0x7fff_leads_payload() {
    let enc = encode_fields(0x7FFF, 0x7FFF, 0, 0, 0x7FFF);
    let pos_u = u16::from_be_bytes([enc.data[0], enc.data[1]]);
    assert_eq!(pos_u, 0x7FFF);
}

#[test]
fn kp_code_0xffff_fills_bytes_4_and_5() {
    let enc = encode_fields(0x7FFF, 0x7FFF, 0xFFFF, 0, 0x7FFF);
    let kp_u = u16::from_be_bytes([enc.data[4], enc.data[5]]);
    assert_eq!(kp_u, 0xFFFF);
}

#[test]
fn torque_goes_into_extra_data_not_data_bytes() {
    let enc = encode_fields(0x7FFF, 0x7FFF, 0, 0, 0x7FFF);
    assert_eq!(enc.torque_extra, 0x7FFF);
    // Data tail (kd region) untouched by torque.
    let kd_u = u16::from_be_bytes([enc.data[6], enc.data[7]]);
    assert_eq!(kd_u, 0);
}

#[test]
fn encode_fields_is_big_endian() {
    let enc = encode_fields(0x0102, 0x0304, 0x0506, 0x0708, 0x090A);
    assert_eq!(enc.data, [1, 2, 3, 4, 5, 6, 7, 8]);
    assert_eq!(enc.torque_extra, 0x090A);
}

#[test]
fn status_decode_recovers_zeros() {
    let mut data = [0u8; 8];
    data[0..2].copy_from_slice(&0x7FFF_u16.to_be_bytes()); // pos = 0
    data[2..4].copy_from_slice(&0x7FFF_u16.to_be_bytes()); // vel = 0
    data[4..6].copy_from_slice(&0x7FFF_u16.to_be_bytes()); // tau = 0
    data[6..8].copy_from_slice(&250_u16.to_be_bytes()); // temp = 25.0 °C
    let st = decode_fields(&data);
    assert_eq!(st.position, 0x7FFF);
    assert_eq!(st.velocity, 0x7FFF);
    assert_eq!(st.torque, 0x7FFF);
    assert_eq!(st.temperature, 250);
}

// ----------------------------------------------------------- parameters

#[test]
fn pads_short_types_to_4_bytes() {
    let v = ParameterValue::Uint8(0xAB);
    assert_eq!(v.to_le_bytes(), [0xAB, 0, 0, 0]);

    let v = ParameterValue::Int16(-1);
    assert_eq!(v.to_le_bytes(), [0xFF, 0xFF, 0, 0]);
}

#[test]
fn float_roundtrips() {
    let v = ParameterValue::Float32(1.5_f32.to_bits());
    let b = v.to_le_bytes();
    assert_eq!(ParameterValue::from_le_bytes(DataType::Float32, b), v);
}

#[test]
fn every_type_roundtrips() {
    let values = [
        ParameterValue::Uint8(0xFE),
        ParameterValue::Int8(-3),
        ParameterValue::Uint16(0xBEEF),
        ParameterValue::Int16(-12_345),
        ParameterValue::Uint32(0xDEAD_BEEF),
        ParameterValue::Int32(-7),
        ParameterValue::Float32((-0.25_f32).to_bits()),
    ];
    for v in values {
        assert_eq!(ParameterValue::from_le_bytes(v.data_type(), v.to_le_bytes()), v);
    }
    assert_eq!(ParameterValue::Int8(-1).to_le_bytes(), [0xFF, 0, 0, 0]);
    assert_eq!(ParameterValue::from_le_bytes(DataType::Int8, [0x80, 9, 9, 9]), ParameterValue::Int8(-128));
    assert_eq!(ParameterValue::from_le_bytes(DataType::Uint16, [1, 2, 3, 4]), ParameterValue::Uint16(0x0201));
}

#[test]
fn parameter_value_accessors() {
    assert_eq!(ParameterValue::Int8(-2).as_i8(), Some(-2));
    assert_eq!(ParameterValue::Int8(-2).as_u8(), None);
    assert_eq!(ParameterValue::Uint8(2).as_u8(), Some(2));
    assert_eq!(ParameterValue::Uint32(9).as_u32(), Some(9));
    assert_eq!(ParameterValue::Uint32(9).as_f32(), None);
    assert_eq!(ParameterValue::Float32(3.0_f32.to_bits()).as_f32().map(f32::from_bits), Some(3.0));
}

#[test]
fn lookup_finds_known_ids() {
    assert_eq!(lookup(0x7005).unwrap().name, "run_mode");
    assert_eq!(lookup(0x302C).unwrap().data_type, DataType::Float32);
    assert!(lookup(0x9999).is_none());
}

#[test]
fn every_parameter_is_found_by_its_id() {
    let table = all_parameters();
    assert_eq!(table.len(), 28);
    for p in &table {
        let found = lookup(p.id).unwrap();
        assert_eq!(found.id, p.id);
        assert_eq!(found.name, p.name);
        assert_eq!(found.data_type, p.data_type);
    }
    assert_eq!(vbus().id, 0x701C);
    assert_eq!(mode().data_type, DataType::Int8);
}

// --------------------------------------------------------------- status

#[test]
fn extra_with_no_flags_decodes_clean() {
    let flags = StatusFlags::from_extra(0x05);
    assert_eq!(flags, StatusFlags::default());
    assert!(!flags.any());
}

#[test]
fn extra_high_bits_set_corresponding_flags() {
    let extra = (1 << 8) | (1 << 13);
    let flags = StatusFlags::from_extra(extra);
    assert!(flags.undervoltage);
    assert!(flags.uncalibrated);
    assert!(!flags.stalled);
}

#[test]
fn flags_ignore_device_id_and_top_bits() {
    assert_eq!(StatusFlags::from_extra(0xC0FF), StatusFlags::default());
    let all = StatusFlags::from_extra(0x3F00);
    assert!(all.any());
    assert!(all.overcurrent && all.overtemperature && all.magnetic_encoder_fault && all.stalled);
}

#[test]
fn fault_report_decodes_bits() {
    let mut data = [0u8; 8];
    let fault = (1u32 << 2) | (1u32 << 3); // undervoltage + overvoltage
    data[0..4].copy_from_slice(&fault.to_le_bytes());
    let f = FaultReport::from_data(&data);
    assert!(f.undervoltage);
    assert!(f.overvoltage);
    assert!(!f.gate);
}

#[test]
fn fault_report_warning_word() {
    let mut data = [0u8; 8];
    data[0..4].copy_from_slice(&((1u32 << 7) | 1).to_le_bytes());
    data[4..8].copy_from_slice(&((1u32 << 14) | 1).to_le_bytes());
    let f = FaultReport::from_data(&data);
    assert!(f.encoder_uncalibrated && f.motor_overtemperature);
    assert!(f.stall_current && f.warning_overtemperature);
    assert!(!f.undervoltage);
}

// --------------------------------------------------------------- driver

#[test]
fn enable_sends_ext_id_with_comm_type_3() {
    let sent = simple_frame(comm_type::ENABLE, DEFAULT_HOST_ID, 0x05);
    let ext_id = match sent.id {
        CanId::Extended(v) => v,
        _ => panic!("expected extended id"),
    };
    let (c, e, d) = decode(ext_id);
    assert_eq!(c, comm_type::ENABLE);
    assert_eq!(e, DEFAULT_HOST_ID);
    assert_eq!(d, 0x05);
    assert_eq!(sent.data, vec![0u8; 8]);
}

#[test]
fn operation_control_puts_torque_in_extra_data() {
    // torque = 0 → torque_u16 = 0x7FFF
    let enc = encode_fields(0x7FFF, 0x7FFF, 0, 0, 0x7FFF);
    let sent = operation_control_frame(&enc, 0x07);
    let ext_id = match sent.id {
        CanId::Extended(v) => v,
        _ => panic!(),
    };
    let (c, e, d) = decode(ext_id);
    assert_eq!(c, comm_type::OPERATION_CONTROL);
    assert_eq!(e, 0x7FFF);
    assert_eq!(d, 0x07);
    // Data payload's pos field should be 0x7FFF (big-endian).
    assert_eq!(&sent.data[0..2], &0x7FFF_u16.to_be_bytes());
}

#[test]
fn read_parameter_decodes_float_reply() {
    let host_id = DEFAULT_HOST_ID;
    let req = read_parameter_frame(host_id, 0x01, &vbus());
    assert_eq!(&req.data[0..2], &0x701C_u16.to_le_bytes());

    // A READ_PARAMETER reply with VBUS = 24.0.
    let value = 24.0_f32;
    let mut reply = [0u8; 8];
    reply[0..2].copy_from_slice(&vbus().id.to_le_bytes());
    reply[4..8].copy_from_slice(&value.to_le_bytes());
    let ext_id = encode(comm_type::READ_PARAMETER, host_id, (host_id & 0xFF) as u8);
    let frame = CanFrame::classic(CanId::Extended(ext_id), reply.to_vec());
    let data = match reply_step(&frame, comm_type::READ_PARAMETER) {
        ReplyStep::Reply(_, data) => data,
        other => panic!("expected a reply, got {other:?}"),
    };
    let v = parameter_from_reply(&vbus(), data);
    assert_eq!(v, ParameterValue::Float32(24.0_f32.to_bits()));
}

#[test]
fn write_parameter_rejects_type_mismatch() {
    let err = write_parameter_request(DEFAULT_HOST_ID, 0x01, &mode(), ParameterValue::Float32(0))
        .unwrap_err();
    assert!(matches!(err, Error::TypeMismatch { .. }));
}

#[test]
fn write_parameter_frames_the_value() {
    let f = write_parameter_request(DEFAULT_HOST_ID, 0x01, &mode(), ParameterValue::Int8(-1)).unwrap();
    assert_eq!(f.data, vec![0x05, 0x70, 0, 0, 0xFF, 0, 0, 0]);
    assert_eq!(f.id, CanId::Extended(encode(comm_type::WRITE_PARAMETER, DEFAULT_HOST_ID, 0x01)));
}

#[test]
fn fault_report_surfaces_as_error() {
    // A FAULT_REPORT frame: undervoltage bit set.
    let mut data = [0u8; 8];
    let fault = 1u32 << 2;
    data[0..4].copy_from_slice(&fault.to_le_bytes());
    let ext_id = encode(comm_type::FAULT_REPORT, 0x01, (DEFAULT_HOST_ID & 0xFF) as u8);
    let frame = CanFrame::classic(CanId::Extended(ext_id), data.to_vec());
    match reply_step(&frame, comm_type::OPERATION_STATUS) {
        ReplyStep::Fault(f) => assert!(f.undervoltage),
        other => panic!("expected FaultReport, got {other:?}"),
    }
}

#[test]
fn unrelated_traffic_is_skipped_and_short_replies_padded() {
    let std_frame = CanFrame::classic(CanId::standard(0x11), vec![0u8; 8]);
    assert!(matches!(reply_step(&std_frame, comm_type::OPERATION_STATUS), ReplyStep::Skip));
    let active = CanFrame::classic(CanId::Extended(encode(comm_type::ACTIVE_REPORT, 0, 0)), vec![1; 8]);
    assert!(matches!(reply_step(&active, comm_type::OPERATION_STATUS), ReplyStep::Skip));
    let short = CanFrame::classic(CanId::Extended(encode(comm_type::GET_DEVICE_ID, 0x0105, 0xFF)), vec![9, 8, 7]);
    match reply_step(&short, comm_type::GET_DEVICE_ID) {
        ReplyStep::Reply(extra, data) => {
            assert_eq!(extra, 0x0105);
            assert_eq!(data, [9, 8, 7, 0, 0, 0, 0, 0]);
            let info = device_info(extra, data);
            assert_eq!(info.device_id, 0x05);
            assert_eq!(info.uuid, data);
        }
        other => panic!("expected a reply, got {other:?}"),
    }
}

#[test]
fn set_device_id_packs_new_id_and_host() {
    let f = set_device_id_frame(0x01FE, 0x03, 0x09);
    assert_eq!(f.id, CanId::Extended(encode(comm_type::SET_DEVICE_ID, 0x09FE, 0x03)));
    assert_eq!(f.data, vec![0u8; 8]);
}
