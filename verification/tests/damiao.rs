use motorcom::damiao::driver::{
    command_frame, control_mode_step, match_register_reply, read_register_request,
    register_frame, set_can_baud_rate_requests, set_can_timeout_request, special_command,
    store_parameters_request, timeout_units, write_register_request, ModeSync, ModeSyncAction,
    CLEAR_ERROR_CODE, DISABLE_CODE, ENABLE_CODE, READ_CMD, REGISTER_BROADCAST_ID,
    SET_ZERO_CODE, STORE_CMD, WRITE_CMD,
};
use motorcom::damiao::mit::{decode_fields, encode_fields, MitReply};
use motorcom::damiao::modes::{force_pos_payload, pos_vel_payload, vel_payload, ControlMode};
use motorcom::damiao::registers::{lookup, Access, BaudRate, DataType, RegisterValue};
use motorcom::damiao::status::MotorStatus;
use motorcom::damiao::Error;
use motorcom::transport::{CanFrame, CanId};

// ---------------------------------------------------------------- modes

#[test]
fn arbitration_offsets() {
    assert_eq!(ControlMode::Mit.arbitration_id(0x05), 0x05);
    assert_eq!(ControlMode::PosVel.arbitration_id(0x05), 0x105);
    assert_eq!(ControlMode::Vel.arbitration_id(0x05), 0x205);
    assert_eq!(ControlMode::ForcePos.arbitration_id(0x05), 0x305);
}

#[test]
fn pos_vel_layout_is_little_endian_pos_then_vel() {
    let bytes = pos_vel_payload(1.0_f32.to_bits(), (-2.0_f32).to_bits());
    assert_eq!(&bytes[0..4], &1.0_f32.to_le_bytes());
    assert_eq!(&bytes[4..8], &(-2.0_f32).to_le_bytes());
}

#[test]
fn vel_payload_zero_pads_tail() {
    let bytes = vel_payload(3.5_f32.to_bits());
    assert_eq!(&bytes[0..4], &3.5_f32.to_le_bytes());
    assert_eq!(&bytes[4..8], &[0, 0, 0, 0]);
}

#[test]
fn force_pos_clamps_velocity_and_ratio() {
    // velocity_limit 250 rad/s scales to 25000, torque_ratio 5.0 to 50000:
    // both are capped at 10000.
    let bytes = force_pos_payload(0.0_f32.to_bits(), 25_000, 50_000);
    let v_u16 = u16::from_le_bytes([bytes[4], bytes[5]]);
    let r_u16 = u16::from_le_bytes([bytes[6], bytes[7]]);
    assert_eq!(v_u16, 10_000);
    assert_eq!(r_u16, 10_000);
}

#[test]
fn force_pos_keeps_values_under_the_cap() {
    let bytes = force_pos_payload(2.25_f32.to_bits(), 5_000, 9_999);
    assert_eq!(&bytes[0..4], &2.25_f32.to_le_bytes());
    assert_eq!(u16::from_le_bytes([bytes[4], bytes[5]]), 5_000);
    assert_eq!(u16::from_le_bytes([bytes[6], bytes[7]]), 9_999);
}

#[test]
fn control_mode_register_values_roundtrip() {
    for mode in [ControlMode::Mit, ControlMode::PosVel, ControlMode::Vel, ControlMode::ForcePos] {
        assert_eq!(ControlMode::from_register(mode.register_value()), Some(mode));
    }
    assert_eq!(ControlMode::Mit.register_value(), 1);
    assert_eq!(ControlMode::ForcePos.register_value(), 4);
    assert_eq!(ControlMode::from_register(0), None);
    assert_eq!(ControlMode::from_register(5), None);
}

// ------------------------------------------------------------ registers

#[test]
fn known_registers_lookup() {
    assert_eq!(lookup(0).unwrap().name, "UV_Value");
    assert_eq!(lookup(10).unwrap().name, "CTRL_MODE");
    assert_eq!(lookup(35).unwrap().data_type, DataType::Uint32);
    assert_eq!(lookup(81).unwrap().access, Access::ReadOnly);
}

#[test]
fn gaps_return_none() {
    assert!(lookup(37).is_none());
    assert!(lookup(57).is_none());
    assert!(lookup(82).is_none());
}

#[test]
fn register_rows_carry_their_ids() {
    let mut count = 0;
    for rid in 0..=255u8 {
        if let Some(info) = lookup(rid) {
            assert_eq!(info.rid, rid);
            count += 1;
        }
    }
    assert_eq!(count, 53);
    assert_eq!(lookup(11).unwrap().access, Access::ReadOnly);
    assert_eq!(lookup(21).unwrap().access, Access::ReadWrite);
    assert_eq!(lookup(9).unwrap().data_type, DataType::Uint32);
    assert_eq!(lookup(60).unwrap().description, "Power supply voltage");
}

#[test]
fn register_value_roundtrips() {
    let v = RegisterValue::Float(1.5_f32.to_bits());
    assert_eq!(RegisterValue::from_le_bytes(DataType::Float, v.to_le_bytes()), v);
    let u = RegisterValue::Uint32(0xDEAD_BEEF);
    assert_eq!(RegisterValue::from_le_bytes(DataType::Uint32, u.to_le_bytes()), u);
}

#[test]
fn register_value_bytes_and_accessors() {
    let u = RegisterValue::Uint32(0x0102_0304);
    assert_eq!(u.to_le_bytes(), [0x04, 0x03, 0x02, 0x01]);
    assert_eq!(u.as_u32(), Some(0x0102_0304));
    assert_eq!(u.as_f32(), None);
    assert_eq!(u.data_type(), DataType::Uint32);
    let f = RegisterValue::Float(24.0_f32.to_bits());
    assert_eq!(f.to_le_bytes(), 24.0_f32.to_le_bytes());
    assert_eq!(f.as_f32().map(f32::from_bits), Some(24.0));
    assert_eq!(f.as_u32(), None);
}

#[test]
fn baud_rate_codes_match_manufacturer_table() {
    assert_eq!(BaudRate::K125 as u8, 0);
    assert_eq!(BaudRate::M1 as u8, 4);
    assert_eq!(BaudRate::K500.bps(), 500_000);
}

#[test]
fn baud_rate_codes_and_rates() {
    assert_eq!(BaudRate::K125.code(), 0);
    assert_eq!(BaudRate::K250.code(), 2);
    assert_eq!(BaudRate::M1.code(), 4);
    assert_eq!(BaudRate::K125.bps(), 125_000);
    assert_eq!(BaudRate::M1.bps(), 1_000_000);
}

// --------------------------------------------------------------- status

#[test]
fn known_codes_decode() {
    assert_eq!(MotorStatus::from_code(0x0), MotorStatus::Disabled);
    assert_eq!(MotorStatus::from_code(0x1), MotorStatus::Enabled);
    assert_eq!(MotorStatus::from_code(0xD), MotorStatus::LostComm);
}

#[test]
fn unknown_code_kept_for_diagnostics() {
    assert_eq!(MotorStatus::from_code(0x7), MotorStatus::Unknown(0x7));
}

#[test]
fn fault_flag_skips_normal_states() {
    assert!(!MotorStatus::Disabled.is_fault());
    assert!(!MotorStatus::Enabled.is_fault());
    assert!(MotorStatus::OverVoltage.is_fault());
    assert!(MotorStatus::LostComm.is_fault());
}

#[test]
fn every_code_but_disabled_and_enabled_is_a_fault() {
    for code in 0..=255u8 {
        assert_eq!(MotorStatus::from_code(code).is_fault(), code > 1);
    }
    assert_eq!(MotorStatus::from_code(0xE), MotorStatus::Overload);
    assert_eq!(MotorStatus::from_code(0xF), MotorStatus::Unknown(0xF));
}

// ------------------------------------------------------------------ mit

#[test]
fn q_field_carries_16_bit_code() {
    // q = 1.234 rad in ±12.5 rad on 16 bits quantizes to 36,002.
    let bytes = encode_fields(36_002, 1_705, 409, 819, 2_150);
    let q_u = ((bytes[0] as u32) << 8) | (bytes[1] as u32);
    assert_eq!(q_u, 36_002);
    let q = (q_u as f32) * 25.0 / 65_535.0 - 12.5;
    assert!((q - 1.234).abs() < 1e-3, "q decoded = {q}");
}

#[test]
fn encode_fields_layout() {
    let bytes = encode_fields(0xABCD, 0x123, 0x456, 0x789, 0xABC);
    assert_eq!(bytes, [0xAB, 0xCD, 0x12, 0x34, 0x56, 0x78, 0x9A, 0xBC]);
}

#[test]
fn all_ones_q_code_fills_first_two_bytes() {
    // The all-ones 16-bit q code (what +p_max quantizes to) fills bytes 0 and 1.
    let bytes = encode_fields(0xFFFF, 2047, 0, 0, 2047);
    assert_eq!(bytes[0], 0xFF);
    assert_eq!(bytes[1], 0xFF);
}

#[test]
fn decode_state_recovers_id_and_position() {
    // Quantized zeros for ±12.5 rad (16 bits), ±30 rad/s and ±10 N·m (12 bits).
    let q_zero: u32 = 32_767;
    let dq_zero: u32 = 2_047;
    let t_zero: u32 = 2_047;
    let data = [
        0x03,
        (q_zero >> 8) as u8,
        (q_zero & 0xFF) as u8,
        (dq_zero >> 4) as u8,
        (((dq_zero & 0xF) << 4) | ((t_zero >> 8) & 0xF)) as u8,
        (t_zero & 0xFF) as u8,
        40,
        45,
    ];
    let st = decode_fields(&data);
    assert_eq!(st.motor_id, 3);
    assert_eq!(st.error, 0);
    assert_eq!(st.q, q_zero);
    assert_eq!(st.dq, dq_zero);
    assert_eq!(st.tau, t_zero);
    assert_eq!(st.t_mos, 40);
    assert_eq!(st.t_rotor, 45);
}

#[test]
fn decode_fields_splits_id_and_status_nibbles() {
    let st = decode_fields(&[0xB2, 0x12, 0x34, 0x56, 0x78, 0x9A, 20, 21, 0xEE]);
    assert_eq!(
        st,
        MitReply { motor_id: 2, error: 0xB, q: 0x1234, dq: 0x567, tau: 0x89A, t_mos: 20, t_rotor: 21 }
    );
    assert_eq!(MotorStatus::from_code(st.error), MotorStatus::MosOverTemp);
}

// --------------------------------------------------------------- driver

#[test]
fn enable_sends_ff_fc_to_motor_id() {
    let sent = command_frame(0x01, special_command(ENABLE_CODE));
    assert_eq!(sent.id, CanId::Standard(0x01));
    assert_eq!(sent.data, vec![0xFF, 0xFF, 0xFF, 0xFF, 0xFF, 0xFF, 0xFF, 0xFC]);
    assert!(!sent.fd);
}

#[test]
fn special_commands_end_in_their_codes() {
    assert_eq!(special_command(DISABLE_CODE)[7], 0xFD);
    assert_eq!(special_command(SET_ZERO_CODE)[7], 0xFE);
    assert_eq!(special_command(CLEAR_ERROR_CODE)[7], 0xFB);
    assert_eq!(&special_command(CLEAR_ERROR_CODE)[0..7], &[0xFF; 7]);
}

#[test]
fn pos_vel_targets_0x100_plus_motor_id() {
    let sent = command_frame(
        ControlMode::PosVel.arbitration_id(0x05),
        pos_vel_payload(1.5_f32.to_bits(), 0.5_f32.to_bits()),
    );
    assert_eq!(sent.id, CanId::Standard(0x105));
    assert_eq!(&sent.data[0..4], &1.5_f32.to_le_bytes());
    assert_eq!(&sent.data[4..8], &0.5_f32.to_le_bytes());
}

#[test]
fn vel_targets_0x200_plus_motor_id() {
    let sent = command_frame(ControlMode::Vel.arbitration_id(0x07), vel_payload((-2.5_f32).to_bits()));
    assert_eq!(sent.id, CanId::Standard(0x207));
    assert_eq!(&sent.data[0..4], &(-2.5_f32).to_le_bytes());
    assert_eq!(&sent.data[4..8], &[0u8; 4]);
}

#[test]
fn force_pos_targets_0x300_and_scales_correctly() {
    // 50 rad/s * 100 and 0.5 * 10000.
    let sent = command_frame(
        ControlMode::ForcePos.arbitration_id(0x02),
        force_pos_payload(0.0_f32.to_bits(), 5_000, 5_000),
    );
    assert_eq!(sent.id, CanId::Standard(0x302));
    let v = u16::from_le_bytes([sent.data[4], sent.data[5]]);
    let r = u16::from_le_bytes([sent.data[6], sent.data[7]]);
    assert_eq!(v, 5_000);
    assert_eq!(r, 5_000);
}

#[test]
fn read_register_decodes_uint32_reply() {
    let (sent, dtype) = read_register_request(0x01, 10).unwrap();
    assert_eq!(sent.id, CanId::Standard(REGISTER_BROADCAST_ID));
    assert_eq!(sent.data[2], READ_CMD);
    assert_eq!(sent.data[3], 10);
    assert_eq!(dtype, DataType::Uint32);

    // Register-10 reply (CTRL_MODE = uint32 2, POS_VEL).
    let mut reply_data = [0u8; 8];
    reply_data[0] = 0x01;
    reply_data[1] = 0x00;
    reply_data[2] = READ_CMD;
    reply_data[3] = 10;
    reply_data[4..8].copy_from_slice(&2u32.to_le_bytes());
    let reply = CanFrame::classic(CanId::standard(REGISTER_BROADCAST_ID), reply_data.to_vec());
    let bytes = match_register_reply(&reply, 10).unwrap();
    assert_eq!(RegisterValue::from_le_bytes(dtype, bytes), RegisterValue::Uint32(2));
}

#[test]
fn register_reply_matching_skips_other_frames() {
    let status = CanFrame::classic(CanId::standard(0x11), vec![0u8; 8]);
    assert!(match_register_reply(&status, 10).is_none());
    let other = CanFrame::classic(CanId::standard(0x7FF), vec![1, 0, READ_CMD, 11, 1, 2, 3, 4]);
    assert!(match_register_reply(&other, 10).is_none());
    let short = CanFrame::classic(CanId::standard(0x7FF), vec![1, 0, READ_CMD, 10, 1, 2, 3]);
    assert!(match_register_reply(&short, 10).is_none());
    let ok = CanFrame::classic(CanId::standard(0x7FF), vec![1, 0, READ_CMD, 11, 1, 2, 3, 4]);
    assert_eq!(match_register_reply(&ok, 11), Some([1, 2, 3, 4]));
}

#[test]
fn read_register_rejects_unknown() {
    let err = read_register_request(0x01, 40).unwrap_err();
    assert!(matches!(err, Error::UnknownRegister(40)));
}

#[test]
fn write_register_rejects_read_only() {
    // Register 80 (p_m) is RO.
    let err = write_register_request(0x01, 80, RegisterValue::Float(0.0_f32.to_bits())).unwrap_err();
    assert!(matches!(err, Error::ReadOnlyRegister(80)));
}

#[test]
fn write_register_rejects_type_mismatch() {
    // Register 10 is Uint32; passing Float must fail.
    let err = write_register_request(0x01, 10, RegisterValue::Float(2.0_f32.to_bits())).unwrap_err();
    assert!(matches!(err, Error::TypeMismatch { rid: 10, .. }));
}

#[test]
fn write_register_frames_the_value() {
    let f = write_register_request(0x0102, 21, RegisterValue::Float(12.5_f32.to_bits())).unwrap();
    assert_eq!(f.id, CanId::Standard(0x7FF));
    assert_eq!(&f.data[0..4], &[0x02, 0x01, WRITE_CMD, 21]);
    assert_eq!(&f.data[4..8], &12.5_f32.to_le_bytes());
    let err = write_register_request(0x01, 99, RegisterValue::Uint32(1)).unwrap_err();
    assert!(matches!(err, Error::UnknownRegister(99)));
}

#[test]
fn store_parameters_uses_aa_01() {
    let sent = store_parameters_request(0x03);
    assert_eq!(sent.id, CanId::Standard(REGISTER_BROADCAST_ID));
    assert_eq!(sent.data[0], 0x03);
    assert_eq!(sent.data[1], 0x00);
    assert_eq!(sent.data[2], STORE_CMD);
    assert_eq!(sent.data[3], 0x01);
}

#[test]
fn set_can_timeout_converts_ms_to_50us_units() {
    let sent = set_can_timeout_request(0x01, 5); // 5 ms → 100 register units
    assert_eq!(sent.id, CanId::Standard(REGISTER_BROADCAST_ID));
    assert_eq!(sent.data[2], WRITE_CMD);
    assert_eq!(sent.data[3], 9);
    let units = u32::from_le_bytes([sent.data[4], sent.data[5], sent.data[6], sent.data[7]]);
    assert_eq!(units, 100);
}

#[test]
fn timeout_units_saturate() {
    assert_eq!(timeout_units(0), 0);
    assert_eq!(timeout_units(1), 20);
    assert_eq!(timeout_units(u32::MAX / 20), (u32::MAX / 20) * 20);
    assert_eq!(timeout_units(u32::MAX / 20 + 1), u32::MAX);
    assert_eq!(timeout_units(u32::MAX), u32::MAX);
}

#[test]
fn set_can_baud_rate_writes_code_then_saves() {
    let (w, s) = set_can_baud_rate_requests(0x04, BaudRate::K500);
    assert_eq!(w.data, vec![0x04, 0x00, WRITE_CMD, 35, 3, 0, 0, 0]);
    assert_eq!(s.data, vec![0x04, 0x00, STORE_CMD, 0x01, 0, 0, 0, 0]);
    assert_eq!(s.id, CanId::Standard(0x7FF));
}

#[test]
fn mit_control_routes_through_shared_codec() {
    let fields = encode_fields(34_078, 2_047, 409, 819, 2_047);
    let sent = command_frame(0x02, fields);
    assert_eq!(sent.id, CanId::Standard(0x02));
    assert_eq!(sent.data, fields.to_vec());
}

#[test]
fn control_dispatches_by_setpoint_variant() {
    let payload = [0u8; 8];
    let ids: Vec<CanId> = [ControlMode::Mit, ControlMode::PosVel, ControlMode::Vel, ControlMode::ForcePos]
        .iter()
        .map(|m| command_frame(m.arbitration_id(0x04), payload).id)
        .collect();
    assert_eq!(ids[0], CanId::Standard(0x04));
    assert_eq!(ids[1], CanId::Standard(0x104));
    assert_eq!(ids[2], CanId::Standard(0x204));
    assert_eq!(ids[3], CanId::Standard(0x304));
}

#[test]
fn feedback_request_and_register_frame() {
    let f = motorcom::damiao::driver::feedback_request(0x0123);
    assert_eq!(f.data, vec![0x23, 0x01, 0xCC, 0x00, 0, 0, 0, 0]);
    let g = register_frame([1, 2, 3, 4, 5, 6, 7, 8]);
    assert_eq!(g.id, CanId::Standard(0x7FF));
    assert_eq!(g.data, vec![1, 2, 3, 4, 5, 6, 7, 8]);
}

#[test]
fn control_mode_already_set_needs_no_write() {
    let a = control_mode_step(ModeSync::ReadCurrent, ControlMode::Mit, RegisterValue::Uint32(1));
    assert!(matches!(a, ModeSyncAction::Done));
}

#[test]
fn control_mode_write_then_verify() {
    let a = control_mode_step(ModeSync::ReadCurrent, ControlMode::Vel, RegisterValue::Uint32(1));
    assert!(matches!(a, ModeSyncAction::Write(RegisterValue::Uint32(3))));
    let ok = control_mode_step(ModeSync::Verify, ControlMode::Vel, RegisterValue::Uint32(3));
    assert!(matches!(ok, ModeSyncAction::Done));
    let bad = control_mode_step(ModeSync::Verify, ControlMode::Vel, RegisterValue::Uint32(0x102));
    assert!(matches!(bad, ModeSyncAction::Fail(Error::ControlModeVerifyFailed { wrote: 3, got: 2 })));
}

#[test]
fn control_mode_float_readback_is_type_mismatch() {
    let a = control_mode_step(ModeSync::ReadCurrent, ControlMode::Mit, RegisterValue::Float(0));
    assert!(matches!(
        a,
        ModeSyncAction::Fail(Error::TypeMismatch { rid: 10, expected: DataType::Uint32, got: DataType::Float })
    ));
}
