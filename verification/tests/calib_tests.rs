use tinyrigel::calib::{
    decode_calibration, CalibrationError, CameraCalibration, ExtrinsicCalibation,
    IntrinsicCalibration, SerializedCalibration, CALIBRATION_SIZE, CHECKSUMMED_WORDS,
    CURRENT_CALIBRATION_VERSION, CURRENT_CALIB_VER_CHECKSUM_OFFSET, SIGNATURE_FIRST,
    SIGNATURE_SECOND,
};

/// The sum of the 38 words before the checksum, computed apart from the library.
fn sum_of_words(bytes: &[u8]) -> u32 {
    let mut sum = 0u32;
    for word in bytes[..152].chunks(4) {
        sum = sum.wrapping_add(u32::from_le_bytes([word[0], word[1], word[2], word[3]]));
    }
    sum
}

/// A buffer of the right length, signature and version, with every other
/// byte before the checksum given, and the right checksum.
fn valid_buffer(fill: u8) -> Vec<u8> {
    let mut bytes = vec![fill; 156];
    bytes[0] = b'C';
    bytes[1] = b'A';
    bytes[2] = 2;
    let sum = sum_of_words(&bytes);
    bytes[152..].copy_from_slice(&sum.to_le_bytes());
    bytes
}

/// A buffer in which byte `i` before the checksum is `i`, but for the
/// signature and version.
fn counting_buffer() -> Vec<u8> {
    let mut bytes: Vec<u8> = (0u8..156).collect();
    bytes[0] = b'C';
    bytes[1] = b'A';
    bytes[2] = 2;
    let sum = sum_of_words(&bytes);
    bytes[152..].copy_from_slice(&sum.to_le_bytes());
    bytes
}

fn camera(seed: u32) -> CameraCalibration {
    CameraCalibration {
        intrinsics: IntrinsicCalibration {
            f: seed + 1,
            offset: [seed + 2, seed + 3],
            tangential: [seed + 4, seed + 5],
            radial: [seed + 6, seed + 7, seed + 8, seed + 9, seed + 10, seed + 11],
        },
        extrinsics: ExtrinsicCalibation {
            f: seed + 12,
            x0: seed + 13,
            y0: seed + 14,
            rotation: [seed + 15, seed + 16, seed + 17],
        },
    }
}

/// A record with every field different from every other, and the checksum
/// that its fields call for.
fn known_record() -> SerializedCalibration {
    let mut record = SerializedCalibration {
        signature: [b'C', b'A'],
        version: 2,
        score: 0x5a,
        timestamp: 0x6135_0f00,
        baseline: 40.0f32.to_bits(),
        q2_init: (-0.125f32).to_bits(),
        calibration: [camera(0x1000_0000), camera(0xe000_0000)],
        checksum: 0,
    };
    record.checksum = record.compute_checksum();
    record
}

#[test]
fn constants_of_the_format() {
    assert_eq!(CURRENT_CALIBRATION_VERSION, 2);
    assert_eq!(CURRENT_CALIB_VER_CHECKSUM_OFFSET, 152);
    assert_eq!(CALIBRATION_SIZE, 156);
    assert_eq!(CALIBRATION_SIZE, CURRENT_CALIB_VER_CHECKSUM_OFFSET as usize + 4);
    assert_eq!(CHECKSUMMED_WORDS * 4, CURRENT_CALIB_VER_CHECKSUM_OFFSET as usize);
    assert_eq!([SIGNATURE_FIRST, SIGNATURE_SECOND], *b"CA");
}

#[test]
fn empty_calibration_is_all_zero() {
    let empty = SerializedCalibration::empty_calibration();
    assert_eq!(empty.signature, [0, 0]);
    assert_eq!(empty.version, 0);
    assert_eq!(empty.score, 0);
    assert_eq!(empty.timestamp, 0);
    assert_eq!(empty.baseline, 0);
    assert_eq!(empty.q2_init, 0);
    assert_eq!(empty.checksum, 0);
    for camera in empty.calibration {
        assert_eq!(camera.intrinsics.f, 0);
        assert_eq!(camera.intrinsics.offset, [0, 0]);
        assert_eq!(camera.intrinsics.tangential, [0, 0]);
        assert_eq!(camera.intrinsics.radial, [0; 6]);
        assert_eq!(camera.extrinsics.f, 0);
        assert_eq!(camera.extrinsics.x0, 0);
        assert_eq!(camera.extrinsics.y0, 0);
        assert_eq!(camera.extrinsics.rotation, [0; 3]);
    }
    assert_eq!(empty.encode(), vec![0u8; 156]);
}

#[test]
fn empty_calibration_does_not_decode() {
    let empty = SerializedCalibration::empty_calibration();
    assert_eq!(
        SerializedCalibration::decode(&empty.encode()),
        Err(CalibrationError::BadSignature)
    );
    assert_eq!(empty.validate(), Err(CalibrationError::BadSignature));
    assert_eq!(
        SerializedCalibration::decode(&[0u8; 156]),
        Err(CalibrationError::BadSignature)
    );
}

#[test]
fn decode_enforces_the_length() {
    let good = valid_buffer(0x11);
    assert!(SerializedCalibration::decode(&good).is_ok());
    assert_eq!(
        SerializedCalibration::decode(&good[..155]),
        Err(CalibrationError::LengthMismatch)
    );
    let mut longer = good.clone();
    longer.push(0);
    assert_eq!(
        SerializedCalibration::decode(&longer),
        Err(CalibrationError::LengthMismatch)
    );
    assert_eq!(
        SerializedCalibration::decode(&[]),
        Err(CalibrationError::LengthMismatch)
    );
    assert_eq!(
        SerializedCalibration::decode(&[0u8; 155]),
        Err(CalibrationError::LengthMismatch)
    );
    assert_eq!(
        SerializedCalibration::decode(&[0xffu8; 157]),
        Err(CalibrationError::LengthMismatch)
    );
    for length in 0..400usize {
        if length != 156 {
            let mut bytes = vec![0x33u8; length];
            if length >= 3 {
                bytes[0] = b'C';
                bytes[1] = b'A';
                bytes[2] = 2;
            }
            assert_eq!(
                SerializedCalibration::decode(&bytes),
                Err(CalibrationError::LengthMismatch)
            );
        }
    }
}

#[test]
fn decode_rejects_a_bad_signature() {
    let good = valid_buffer(0x11);
    for (first, second) in [(b'c', b'A'), (b'C', b'a'), (b'A', b'C'), (0, 0), (b'C', 0), (0, b'A')] {
        let mut bytes = good.clone();
        bytes[0] = first;
        bytes[1] = second;
        let sum = sum_of_words(&bytes);
        bytes[152..].copy_from_slice(&sum.to_le_bytes());
        assert_eq!(
            SerializedCalibration::decode(&bytes),
            Err(CalibrationError::BadSignature)
        );
    }
}

#[test]
fn decode_rejects_other_versions() {
    let good = valid_buffer(0x11);
    for version in 0u8..=255 {
        let mut bytes = good.clone();
        bytes[2] = version;
        let sum = sum_of_words(&bytes);
        bytes[152..].copy_from_slice(&sum.to_le_bytes());
        let decoded = SerializedCalibration::decode(&bytes);
        if version == 2 {
            assert_eq!(decoded.map(|record| record.version), Ok(2));
        } else {
            assert_eq!(decoded, Err(CalibrationError::UnsupportedVersion));
        }
    }
}

#[test]
fn decode_rejects_a_wrong_checksum() {
    let good = valid_buffer(0x11);
    let sum = sum_of_words(&good);
    assert_ne!(sum.to_le_bytes()[3], 0);
    let mut bytes = good.clone();
    bytes[152..].copy_from_slice(&sum.wrapping_add(1).to_le_bytes());
    assert_eq!(
        SerializedCalibration::decode(&bytes),
        Err(CalibrationError::ChecksumMismatch)
    );
    // A change in any checksummed word is noticed.
    for at in 3..152 {
        let mut bytes = good.clone();
        bytes[at] ^= 0x40;
        assert_eq!(
            SerializedCalibration::decode(&bytes),
            Err(CalibrationError::ChecksumMismatch)
        );
    }
}

#[test]
fn decode_reports_the_first_failing_check() {
    // Wrong in every way but the length: the signature is reported.
    let mut bytes = vec![0x77u8; 156];
    assert_eq!(
        SerializedCalibration::decode(&bytes),
        Err(CalibrationError::BadSignature)
    );
    // Signature mended: the version is reported.
    bytes[0] = b'C';
    bytes[1] = b'A';
    assert_eq!(
        SerializedCalibration::decode(&bytes),
        Err(CalibrationError::UnsupportedVersion)
    );
    // Version mended: the checksum is reported.
    bytes[2] = 2;
    assert_eq!(
        SerializedCalibration::decode(&bytes),
        Err(CalibrationError::ChecksumMismatch)
    );
    // Wrong in every way and in length: the length is reported.
    assert_eq!(
        SerializedCalibration::decode(&[0x77u8; 157]),
        Err(CalibrationError::LengthMismatch)
    );
}

#[test]
fn checksum_tolerance_accepts_a_zero_last_byte() {
    let good = valid_buffer(0x11);
    let right = sum_of_words(&good);

    // A wrong checksum whose last byte is zero: accepted, and kept as it is.
    let mut tolerated = good.clone();
    tolerated[152] = 0xde;
    tolerated[153] = 0xad;
    tolerated[154] = 0xbe;
    tolerated[155] = 0x00;
    assert_ne!(u32::from_le_bytes([0xde, 0xad, 0xbe, 0x00]), right);
    let record = SerializedCalibration::decode(&tolerated).unwrap();
    assert_eq!(record.checksum, 0x00be_adde);
    assert_eq!(record.encode(), tolerated);
    assert_eq!(record.validate(), Ok(()));
    assert_ne!(record.checksum, record.compute_checksum());

    // The same wrong checksum with another last byte: refused.
    for last in 1u8..=255 {
        let mut refused = tolerated.clone();
        refused[155] = last;
        if u32::from_le_bytes([0xde, 0xad, 0xbe, last]) != right {
            assert_eq!(
                SerializedCalibration::decode(&refused),
                Err(CalibrationError::ChecksumMismatch)
            );
        }
    }
}

#[test]
fn checksum_tolerance_looks_at_the_last_byte_only() {
    let good = valid_buffer(0x11);
    // Zero in each of the other three checksum bytes does not excuse a wrong sum.
    for zeroed in 152..155 {
        let mut bytes = good.clone();
        bytes[152] = 0x01;
        bytes[153] = 0x02;
        bytes[154] = 0x03;
        bytes[155] = 0x04;
        bytes[zeroed] = 0;
        assert_ne!(
            u32::from_le_bytes([bytes[152], bytes[153], bytes[154], bytes[155]]),
            sum_of_words(&good)
        );
        assert_eq!(
            SerializedCalibration::decode(&bytes),
            Err(CalibrationError::ChecksumMismatch)
        );
    }
}

#[test]
fn checksum_tolerance_does_not_excuse_signature_or_version() {
    let mut bytes = valid_buffer(0x11);
    bytes[155] = 0;
    assert!(SerializedCalibration::decode(&bytes).is_ok());
    bytes[2] = 3;
    assert_eq!(
        SerializedCalibration::decode(&bytes),
        Err(CalibrationError::UnsupportedVersion)
    );
    bytes[1] = b'B';
    assert_eq!(
        SerializedCalibration::decode(&bytes),
        Err(CalibrationError::BadSignature)
    );
}

#[test]
fn checksum_is_the_wrapping_sum_of_the_words() {
    // Words: 0x07024143 (signature, version, score), 0xffffffff, 0x00000002,
    // then zeros. The sum passes 2^32 and wraps.
    let mut record = SerializedCalibration::empty_calibration();
    record.signature = [b'C', b'A'];
    record.version = 2;
    record.score = 7;
    record.timestamp = 0xffff_ffff;
    record.baseline = 2;
    assert_eq!(record.compute_checksum(), 0x0702_4144);

    record.checksum = 0x0702_4144;
    assert_eq!(record.validate(), Ok(()));
    assert_eq!(SerializedCalibration::decode(&record.encode()), Ok(record));

    record.checksum = 0x0702_4145;
    assert_eq!(record.validate(), Err(CalibrationError::ChecksumMismatch));
    assert_eq!(
        SerializedCalibration::decode(&record.encode()),
        Err(CalibrationError::ChecksumMismatch)
    );
}

#[test]
fn checksum_does_not_count_itself() {
    let mut record = known_record();
    let before = record.compute_checksum();
    record.checksum = 0x1234_5678;
    assert_eq!(record.compute_checksum(), before);
}

#[test]
fn checksum_of_maximal_words() {
    // 38 words: the first is "CA", 0xff, 0xff; the other 37 are 0xffffffff.
    let mut bytes = vec![0xffu8; 156];
    bytes[0] = b'C';
    bytes[1] = b'A';
    bytes[2] = 2;
    let first = 0xff02_4143u32;
    let expected = first.wrapping_sub(37);
    assert_eq!(sum_of_words(&bytes), expected);
    bytes[152..].copy_from_slice(&expected.to_le_bytes());
    let record = SerializedCalibration::decode(&bytes).unwrap();
    assert_eq!(record.checksum, expected);
    assert_eq!(record.compute_checksum(), expected);
    assert_eq!(record.checksum, 0xff02_411e);
}

#[test]
fn decode_reads_each_field_at_its_offset() {
    let bytes = counting_buffer();
    let record = SerializedCalibration::decode(&bytes).unwrap();
    let word = |at: u8| u32::from_le_bytes([at, at + 1, at + 2, at + 3]);
    assert_eq!(record.signature, [b'C', b'A']);
    assert_eq!(record.version, 2);
    assert_eq!(record.score, 3);
    assert_eq!(record.timestamp, word(4));
    assert_eq!(record.timestamp, 0x0706_0504);
    assert_eq!(record.baseline, word(8));
    assert_eq!(record.q2_init, word(12));
    let mut base = 16u8;
    for camera in record.calibration {
        assert_eq!(camera.intrinsics.f, word(base));
        assert_eq!(camera.intrinsics.offset, [word(base + 4), word(base + 8)]);
        assert_eq!(camera.intrinsics.tangential, [word(base + 12), word(base + 16)]);
        assert_eq!(
            camera.intrinsics.radial,
            [
                word(base + 20),
                word(base + 24),
                word(base + 28),
                word(base + 32),
                word(base + 36),
                word(base + 40)
            ]
        );
        assert_eq!(camera.extrinsics.f, word(base + 44));
        assert_eq!(camera.extrinsics.x0, word(base + 48));
        assert_eq!(camera.extrinsics.y0, word(base + 52));
        assert_eq!(
            camera.extrinsics.rotation,
            [word(base + 56), word(base + 60), word(base + 64)]
        );
        base += 68;
    }
    assert_eq!(base, 152);
    assert_eq!(record.checksum.to_le_bytes(), bytes[152..]);
    assert_eq!(record.encode(), bytes);
}

#[test]
fn encode_writes_each_field_at_its_offset() {
    let record = known_record();
    let bytes = record.encode();
    assert_eq!(bytes.len(), 156);
    assert_eq!(&bytes[0..2], b"CA");
    assert_eq!(bytes[2], 2);
    assert_eq!(bytes[3], 0x5a);
    assert_eq!(bytes[4..8], [0x00, 0x0f, 0x35, 0x61]);
    assert_eq!(bytes[8..12], 40.0f32.to_le_bytes());
    assert_eq!(bytes[12..16], (-0.125f32).to_le_bytes());
    for (index, seed) in [(0usize, 0x1000_0000u32), (1, 0xe000_0000)] {
        let base = 16 + 68 * index;
        for field in 0..17usize {
            let at = base + 4 * field;
            assert_eq!(bytes[at..at + 4], (seed + 1 + field as u32).to_le_bytes());
        }
    }
    assert_eq!(bytes[152..156], record.checksum.to_le_bytes());
    assert_eq!(record.checksum, sum_of_words(&bytes));
}

#[test]
fn known_record_round_trips() {
    let record = known_record();
    assert_eq!(record.validate(), Ok(()));
    let bytes = record.encode();
    let decoded = SerializedCalibration::decode(&bytes).unwrap();
    assert_eq!(decoded, record);
    assert_eq!(decoded.encode(), bytes);
    assert_eq!(f32::from_bits(decoded.baseline), 40.0);
    assert_eq!(f32::from_bits(decoded.q2_init), -0.125);
}

#[test]
fn round_trip_keeps_float_patterns_verbatim() {
    let mut record = known_record();
    let patterns = [
        f32::NAN.to_bits(),
        0x7fc0_0001,
        f32::INFINITY.to_bits(),
        f32::NEG_INFINITY.to_bits(),
        (-0.0f32).to_bits(),
        f32::MIN_POSITIVE.to_bits(),
    ];
    record.calibration[1].intrinsics.radial = patterns;
    record.baseline = 0xffc0_1234;
    record.checksum = record.compute_checksum();
    let decoded = SerializedCalibration::decode(&record.encode()).unwrap();
    assert_eq!(decoded.calibration[1].intrinsics.radial, patterns);
    assert_eq!(decoded.baseline, 0xffc0_1234);
    assert_eq!(decoded, record);
}

#[test]
fn round_trip_fails_with_the_fault_of_the_record() {
    let good = known_record();

    let mut unsigned = good;
    unsigned.signature = [b'X', b'A'];
    assert_eq!(unsigned.validate(), Err(CalibrationError::BadSignature));
    assert_eq!(
        SerializedCalibration::decode(&unsigned.encode()),
        Err(CalibrationError::BadSignature)
    );

    let mut newer = good;
    newer.version = 3;
    assert_eq!(newer.validate(), Err(CalibrationError::UnsupportedVersion));
    assert_eq!(
        SerializedCalibration::decode(&newer.encode()),
        Err(CalibrationError::UnsupportedVersion)
    );

    let mut summed_wrong = good;
    summed_wrong.checksum = good.checksum ^ 0x8000_0001;
    assert_ne!(summed_wrong.checksum >> 24, 0);
    assert_eq!(summed_wrong.validate(), Err(CalibrationError::ChecksumMismatch));
    assert_eq!(
        SerializedCalibration::decode(&summed_wrong.encode()),
        Err(CalibrationError::ChecksumMismatch)
    );
}

#[test]
fn round_trip_through_the_tolerance_keeps_the_stored_checksum() {
    let mut record = known_record();
    assert_ne!(record.checksum, 0x0012_3456);
    record.checksum = 0x0012_3456;
    assert_eq!(record.validate(), Ok(()));
    let bytes = record.encode();
    assert_eq!(bytes[152..], [0x56, 0x34, 0x12, 0x00]);
    let decoded = SerializedCalibration::decode(&bytes).unwrap();
    assert_eq!(decoded, record);
    assert_eq!(decoded.checksum, 0x0012_3456);
}

#[test]
fn cameras_come_in_buffer_order() {
    let mut bytes = vec![0u8; 156];
    bytes[0] = b'C';
    bytes[1] = b'A';
    bytes[2] = 2;
    for at in 16..84 {
        bytes[at] = 0x11;
    }
    for at in 84..152 {
        bytes[at] = 0x22;
    }
    let sum = sum_of_words(&bytes);
    bytes[152..].copy_from_slice(&sum.to_le_bytes());
    let record = SerializedCalibration::decode(&bytes).unwrap();

    let left = record.calibration[0];
    let right = record.calibration[1];
    assert_eq!(left.intrinsics.f, 0x1111_1111);
    assert_eq!(left.intrinsics.radial, [0x1111_1111; 6]);
    assert_eq!(left.extrinsics.rotation, [0x1111_1111; 3]);
    assert_eq!(right.intrinsics.f, 0x2222_2222);
    assert_eq!(right.intrinsics.radial, [0x2222_2222; 6]);
    assert_eq!(right.extrinsics.rotation, [0x2222_2222; 3]);
}

#[test]
fn swapping_the_camera_blocks_swaps_the_cameras() {
    let record = known_record();
    let bytes = record.encode();
    let mut swapped = bytes.clone();
    swapped[16..84].copy_from_slice(&bytes[84..152]);
    swapped[84..152].copy_from_slice(&bytes[16..84]);
    // The sum of the words does not depend on their order.
    let decoded = SerializedCalibration::decode(&swapped).unwrap();
    assert_eq!(decoded.calibration[0], record.calibration[1]);
    assert_eq!(decoded.calibration[1], record.calibration[0]);
    assert_ne!(decoded.calibration[0], decoded.calibration[1]);
}

#[test]
fn camera_blocks_split_into_intrinsics_and_extrinsics() {
    let bytes = counting_buffer();
    let record = SerializedCalibration::decode(&bytes).unwrap();
    // The last intrinsic value of the left camera ends at byte 59, its
    // extrinsics begin at byte 60.
    assert_eq!(record.calibration[0].intrinsics.radial[5], u32::from_le_bytes([56, 57, 58, 59]));
    assert_eq!(record.calibration[0].extrinsics.f, u32::from_le_bytes([60, 61, 62, 63]));
    // The right camera begins at byte 84 and ends at byte 151.
    assert_eq!(record.calibration[1].intrinsics.f, u32::from_le_bytes([84, 85, 86, 87]));
    assert_eq!(
        record.calibration[1].extrinsics.rotation[2],
        u32::from_le_bytes([148, 149, 150, 151])
    );
}

#[test]
fn decode_calibration_is_decode() {
    let good = counting_buffer();
    assert_eq!(decode_calibration(&good), SerializedCalibration::decode(&good));
    assert!(decode_calibration(&good).is_ok());
    assert_eq!(
        decode_calibration(&good[..155]),
        Err(CalibrationError::LengthMismatch)
    );
    assert_eq!(
        decode_calibration(&[0u8; 156]),
        Err(CalibrationError::BadSignature)
    );
    let mut newer = good.clone();
    newer[2] = 1;
    assert_eq!(decode_calibration(&newer), Err(CalibrationError::UnsupportedVersion));
    let mut damaged = good.clone();
    damaged[100] ^= 1;
    assert_eq!(decode_calibration(&damaged), Err(CalibrationError::ChecksumMismatch));
}

#[test]
fn validate_agrees_with_decoding_the_bytes() {
    let mut records = vec![known_record(), SerializedCalibration::empty_calibration()];
    let mut altered = known_record();
    altered.score = altered.score.wrapping_add(1);
    records.push(altered);
    let mut tolerated = known_record();
    tolerated.checksum &= 0x00ff_ffff;
    records.push(tolerated);
    for record in records {
        let decoded = SerializedCalibration::decode(&record.encode());
        match record.validate() {
            Ok(()) => assert_eq!(decoded, Ok(record)),
            Err(fault) => assert_eq!(decoded, Err(fault)),
        }
    }
}
