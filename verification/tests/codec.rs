use fee_codec::{DecodeError, DynamicFeeParameters, StaticFeeParameters};

fn sample_static() -> StaticFeeParameters {
    StaticFeeParameters {
        base_factor: 0x1234,
        filter_period: 40,
        decay_period: 600,
        reduction_factor: 5000,
        variable_fee_control: 40000,
        max_volatility_accumulator: 350000,
        protocol_share: 2000,
        _space: [0xAA, 0xBB],
    }
}

fn sample_dynamic() -> DynamicFeeParameters {
    DynamicFeeParameters {
        time_last_updated: 1_700_000_000,
        volatility_accumulator: 123_456,
        volatility_reference: 654_321,
        id_reference: 8_388_608,
        _space: [0xDE, 0xAD, 0xBE, 0xEF],
    }
}

#[test]
fn static_round_trip() {
    let p = sample_static();
    let bytes = p.to_bytes();
    let q = StaticFeeParameters::unpack_from_slice(&bytes).unwrap();
    assert_eq!(q, p);
}

#[test]
fn dynamic_round_trip() {
    let p = sample_dynamic();
    let bytes = p.to_bytes();
    let q = DynamicFeeParameters::unpack_from_slice(&bytes).unwrap();
    assert_eq!(q, p);
}

#[test]
fn static_fixed_width_max_values() {
    let p = StaticFeeParameters {
        base_factor: 65535,
        filter_period: 65535,
        decay_period: 65535,
        reduction_factor: 65535,
        variable_fee_control: 4294967295,
        max_volatility_accumulator: 4294967295,
        protocol_share: 65535,
        _space: [0xFF, 0xFF],
    };
    assert_eq!(p.to_bytes().len(), 20);
    let zero = StaticFeeParameters {
        base_factor: 0,
        filter_period: 0,
        decay_period: 0,
        reduction_factor: 0,
        variable_fee_control: 0,
        max_volatility_accumulator: 0,
        protocol_share: 0,
        _space: [0, 0],
    };
    assert_eq!(zero.to_bytes().len(), 20);
}

#[test]
fn dynamic_fixed_width_max_values() {
    let p = DynamicFeeParameters {
        time_last_updated: u64::MAX,
        volatility_accumulator: u32::MAX,
        volatility_reference: u32::MAX,
        id_reference: u32::MAX,
        _space: [0xFF, 0xFF, 0xFF, 0xFF],
    };
    assert_eq!(p.to_bytes().len(), 24);
    let zero = DynamicFeeParameters {
        time_last_updated: 0,
        volatility_accumulator: 0,
        volatility_reference: 0,
        id_reference: 0,
        _space: [0, 0, 0, 0],
    };
    assert_eq!(zero.to_bytes().len(), 24);
}

#[test]
fn time_last_updated_little_endian() {
    let mut p = sample_dynamic();
    p.time_last_updated = 1;
    let bytes = p.to_bytes();
    assert_eq!(bytes[0], 0x01);
    for i in 1..8 {
        assert_eq!(bytes[i], 0x00);
    }
}

#[test]
fn dynamic_field_offsets_little_endian() {
    let p = DynamicFeeParameters {
        time_last_updated: 0x0102030405060708,
        volatility_accumulator: 0x0A0B0C0D,
        volatility_reference: 0x1A1B1C1D,
        id_reference: 0x2A2B2C2D,
        _space: [0x91, 0x92, 0x93, 0x94],
    };
    let bytes = p.to_bytes();
    assert_eq!(
        bytes,
        vec![
            0x08, 0x07, 0x06, 0x05, 0x04, 0x03, 0x02, 0x01, // time_last_updated
            0x0D, 0x0C, 0x0B, 0x0A, // volatility_accumulator
            0x1D, 0x1C, 0x1B, 0x1A, // volatility_reference
            0x2D, 0x2C, 0x2B, 0x2A, // id_reference
            0x91, 0x92, 0x93, 0x94, // reserved
        ]
    );
}

#[test]
fn static_short_buffer_rejected() {
    let buf = vec![0u8; 19];
    assert_eq!(
        StaticFeeParameters::unpack_from_slice(&buf),
        Err(DecodeError::BufferTooShort)
    );
}

#[test]
fn dynamic_short_buffer_rejected() {
    let buf = vec![0u8; 23];
    assert_eq!(
        DynamicFeeParameters::unpack_from_slice(&buf),
        Err(DecodeError::BufferTooShort)
    );
}

#[test]
fn exact_width_accepted() {
    let sbuf = vec![0u8; 20];
    assert!(StaticFeeParameters::unpack_from_slice(&sbuf).is_ok());
    let dbuf = vec![0u8; 24];
    assert!(DynamicFeeParameters::unpack_from_slice(&dbuf).is_ok());
}

#[test]
fn static_reserved_bytes_preserved() {
    let mut buf = sample_static().to_bytes();
    buf[18] = 0xAA;
    buf[19] = 0xBB;
    let p = StaticFeeParameters::unpack_from_slice(&buf).unwrap();
    assert_eq!(p._space, [0xAA, 0xBB]);
    let again = p.to_bytes();
    assert_eq!(again[18], 0xAA);
    assert_eq!(again[19], 0xBB);
    assert_eq!(again, buf);
}

#[test]
fn dynamic_reserved_bytes_preserved() {
    let mut buf = sample_dynamic().to_bytes();
    buf[20] = 0xAA;
    buf[21] = 0xBB;
    buf[22] = 0xCC;
    buf[23] = 0xDD;
    let p = DynamicFeeParameters::unpack_from_slice(&buf).unwrap();
    assert_eq!(p._space, [0xAA, 0xBB, 0xCC, 0xDD]);
    assert_eq!(p.to_bytes(), buf);
}

#[test]
fn protocol_share_offset_stability() {
    let a = sample_static();
    let mut b = a;
    b.protocol_share = 9999;
    let abytes = a.to_bytes();
    let bbytes = b.to_bytes();
    for i in 0..20 {
        if (16..18).contains(&i) {
            continue;
        }
        assert_eq!(abytes[i], bbytes[i]);
    }
    assert_ne!(&abytes[16..18], &bbytes[16..18]);
}

#[test]
fn static_concrete_layout() {
    let p = StaticFeeParameters {
        base_factor: 1,
        filter_period: 2,
        decay_period: 3,
        reduction_factor: 4,
        variable_fee_control: 5,
        max_volatility_accumulator: 6,
        protocol_share: 7,
        _space: [0x11, 0x22],
    };
    assert_eq!(
        p.to_bytes(),
        vec![
            0x01, 0x00, 0x02, 0x00, 0x03, 0x00, 0x04, 0x00, 0x05, 0x00, 0x00, 0x00, 0x06, 0x00,
            0x00, 0x00, 0x07, 0x00, 0x11, 0x22,
        ]
    );
}

#[test]
fn dynamic_is_initialized() {
    assert!(sample_dynamic().is_initialized());
}

#[test]
fn static_pack_preserves_tail() {
    let p = sample_static();
    let mut out = vec![0x5Cu8; 32];
    p.pack_into_slice(&mut out);
    assert_eq!(out.len(), 32);
    assert_eq!(&out[..20], p.to_bytes().as_slice());
    for i in 20..32 {
        assert_eq!(out[i], 0x5C);
    }
}

#[test]
fn dynamic_pack_preserves_tail() {
    let p = sample_dynamic();
    let mut out = vec![0x5Cu8; 30];
    p.pack_into_slice(&mut out);
    assert_eq!(out.len(), 30);
    assert_eq!(&out[..24], p.to_bytes().as_slice());
    for i in 24..30 {
        assert_eq!(out[i], 0x5C);
    }
}

#[test]
fn clone_is_structural() {
    let p = sample_static();
    assert_eq!(p.clone(), p);
    let q = sample_dynamic();
    assert_eq!(q.clone(), q);
}
