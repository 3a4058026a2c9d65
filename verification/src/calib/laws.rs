//! What holds of the calibration codec: that a record and its bytes determine
//! each other, which camera comes from which bytes, and how the checks of
//! decoding fall out for the records and buffers of interest.

use crate::calib::{
    checksum_of, decoded, CalibrationError, CameraCalibration, ExtrinsicCalibation,
    IntrinsicCalibration, SerializedCalibration, CALIBRATION_SIZE, CURRENT_CALIBRATION_VERSION,
    SIGNATURE_FIRST, SIGNATURE_SECOND,
};
use crate::wire::{
    le_bytes, le_u32, lemma_le_bytes_of_le_u32, lemma_le_u32_of_le_bytes,
    lemma_le_u32_where_bytes_stand, lemma_stretch_splits, lemma_stretches_join,
};
use vstd::prelude::*;

verus! {

/// The value whose bytes end a stretch of a buffer is read at their place, and
/// what stands before them is the rest of the stretch.
proof fn lemma_last_value(bytes: Seq<u8>, at: int, before: Seq<u8>, value: u32)
    requires
        0 <= at,
        at + before.len() + 4 <= bytes.len(),
        bytes.subrange(at, at + before.len() + 4) == before + le_bytes(value),
    ensures
        le_u32(bytes, at + before.len()) == value,
        bytes.subrange(at, at + before.len()) == before,
{
    lemma_le_u32_of_le_bytes(value);
    lemma_stretch_splits(bytes, at, before, le_bytes(value));
    lemma_le_u32_where_bytes_stand(bytes, at + before.len(), value);
}

/// A stretch of a buffer, taken four bytes further, ends in the bytes of the
/// value read there.
proof fn lemma_next_value(bytes: Seq<u8>, at: int, n: int)
    requires
        0 <= at,
        0 <= n,
        at + n + 4 <= bytes.len(),
    ensures
        bytes.subrange(at, at + n) + le_bytes(le_u32(bytes, at + n)) == bytes.subrange(
            at,
            at + n + 4,
        ),
{
    lemma_le_bytes_of_le_u32(bytes, at + n);
    lemma_stretches_join(bytes, at, at + n, at + n + 4);
}

impl IntrinsicCalibration {
    /// Intrinsics take 44 bytes.
    pub proof fn lemma_bytes_len(self)
        ensures
            self.bytes().len() == 44,
    {
        reveal(IntrinsicCalibration::bytes);
    }

    /// Intrinsics are read back from wherever their bytes stand in a buffer.
    pub proof fn lemma_at_of_bytes(self, bytes: Seq<u8>, at: int)
        requires
            0 <= at,
            at + 44 <= bytes.len(),
            bytes.subrange(at, at + 44) == self.bytes(),
        ensures
            Self::at(bytes, at) == self,
    {
        reveal(IntrinsicCalibration::bytes);
        let first4 = le_bytes(self.f);
        let first8 = first4 + le_bytes(self.offset[0]);
        let first12 = first8 + le_bytes(self.offset[1]);
        let first16 = first12 + le_bytes(self.tangential[0]);
        let first20 = first16 + le_bytes(self.tangential[1]);
        let first24 = first20 + le_bytes(self.radial[0]);
        let first28 = first24 + le_bytes(self.radial[1]);
        let first32 = first28 + le_bytes(self.radial[2]);
        let first36 = first32 + le_bytes(self.radial[3]);
        let first40 = first36 + le_bytes(self.radial[4]);
        lemma_last_value(bytes, at, first40, self.radial[5]);
        lemma_last_value(bytes, at, first36, self.radial[4]);
        lemma_last_value(bytes, at, first32, self.radial[3]);
        lemma_last_value(bytes, at, first28, self.radial[2]);
        lemma_last_value(bytes, at, first24, self.radial[1]);
        lemma_last_value(bytes, at, first20, self.radial[0]);
        lemma_last_value(bytes, at, first16, self.tangential[1]);
        lemma_last_value(bytes, at, first12, self.tangential[0]);
        lemma_last_value(bytes, at, first8, self.offset[1]);
        lemma_last_value(bytes, at, first4, self.offset[0]);
        lemma_le_u32_where_bytes_stand(bytes, at, self.f);
        let got = Self::at(bytes, at);
        assert(got.offset =~= self.offset);
        assert(got.tangential =~= self.tangential);
        assert(got.radial =~= self.radial);
    }

    /// The bytes of the intrinsics read at an offset are the bytes that stand there.
    pub proof fn lemma_bytes_of_at(bytes: Seq<u8>, at: int)
        requires
            0 <= at,
            at + 44 <= bytes.len(),
        ensures
            Self::at(bytes, at).bytes() == bytes.subrange(at, at + 44),
    {
        reveal(IntrinsicCalibration::bytes);
        lemma_le_bytes_of_le_u32(bytes, at);
        lemma_next_value(bytes, at, 4);
        lemma_next_value(bytes, at, 8);
        lemma_next_value(bytes, at, 12);
        lemma_next_value(bytes, at, 16);
        lemma_next_value(bytes, at, 20);
        lemma_next_value(bytes, at, 24);
        lemma_next_value(bytes, at, 28);
        lemma_next_value(bytes, at, 32);
        lemma_next_value(bytes, at, 36);
        lemma_next_value(bytes, at, 40);
    }
}

impl ExtrinsicCalibation {
    /// Extrinsics take 24 bytes.
    pub proof fn lemma_bytes_len(self)
        ensures
            self.bytes().len() == 24,
    {
        reveal(ExtrinsicCalibation::bytes);
    }

    /// Extrinsics are read back from wherever their bytes stand in a buffer.
    pub proof fn lemma_at_of_bytes(self, bytes: Seq<u8>, at: int)
        requires
            0 <= at,
            at + 24 <= bytes.len(),
            bytes.subrange(at, at + 24) == self.bytes(),
        ensures
            Self::at(bytes, at) == self,
    {
        reveal(ExtrinsicCalibation::bytes);
        let first4 = le_bytes(self.f);
        let first8 = first4 + le_bytes(self.x0);
        let first12 = first8 + le_bytes(self.y0);
        let first16 = first12 + le_bytes(self.rotation[0]);
        let first20 = first16 + le_bytes(self.rotation[1]);
        lemma_last_value(bytes, at, first20, self.rotation[2]);
        lemma_last_value(bytes, at, first16, self.rotation[1]);
        lemma_last_value(bytes, at, first12, self.rotation[0]);
        lemma_last_value(bytes, at, first8, self.y0);
        lemma_last_value(bytes, at, first4, self.x0);
        lemma_le_u32_where_bytes_stand(bytes, at, self.f);
        assert(Self::at(bytes, at).rotation =~= self.rotation);
    }

    /// The bytes of the extrinsics read at an offset are the bytes that stand there.
    pub proof fn lemma_bytes_of_at(bytes: Seq<u8>, at: int)
        requires
            0 <= at,
            at + 24 <= bytes.len(),
        ensures
            Self::at(bytes, at).bytes() == bytes.subrange(at, at + 24),
    {
        reveal(ExtrinsicCalibation::bytes);
        lemma_le_bytes_of_le_u32(bytes, at);
        lemma_next_value(bytes, at, 4);
        lemma_next_value(bytes, at, 8);
        lemma_next_value(bytes, at, 12);
        lemma_next_value(bytes, at, 16);
        lemma_next_value(bytes, at, 20);
    }
}

impl CameraCalibration {
    /// A camera calibration takes 68 bytes.
    pub proof fn lemma_bytes_len(self)
        ensures
            self.bytes().len() == 68,
    {
        self.intrinsics.lemma_bytes_len();
        self.extrinsics.lemma_bytes_len();
    }

    /// A camera calibration is read back from wherever its bytes stand in a buffer.
    pub proof fn lemma_at_of_bytes(self, bytes: Seq<u8>, at: int)
        requires
            0 <= at,
            at + 68 <= bytes.len(),
            bytes.subrange(at, at + 68) == self.bytes(),
        ensures
            Self::at(bytes, at) == self,
    {
        self.intrinsics.lemma_bytes_len();
        self.extrinsics.lemma_bytes_len();
        lemma_stretch_splits(bytes, at, self.intrinsics.bytes(), self.extrinsics.bytes());
        self.intrinsics.lemma_at_of_bytes(bytes, at);
        self.extrinsics.lemma_at_of_bytes(bytes, at + 44);
    }

    /// The bytes of the camera calibration read at an offset are the bytes that stand there.
    pub proof fn lemma_bytes_of_at(bytes: Seq<u8>, at: int)
        requires
            0 <= at,
            at + 68 <= bytes.len(),
        ensures
            Self::at(bytes, at).bytes() == bytes.subrange(at, at + 68),
    {
        IntrinsicCalibration::lemma_bytes_of_at(bytes, at);
        ExtrinsicCalibation::lemma_bytes_of_at(bytes, at + 44);
        lemma_stretches_join(bytes, at, at + 44, at + 68);
    }
}

/// Adding a word to a sum kept modulo 2^32, and wrapping, keeps it the sum
/// modulo 2^32.
pub proof fn lemma_sum_wraps(total: int, word: u32)
    ensures
        vstd::wrapping::u32_specs::wrapping_add((total % 0x1_0000_0000) as u32, word) == (total
            + word) % 0x1_0000_0000,
{
    vstd::arithmetic::div_mod::lemma_add_mod_noop_right(word as int, total, 0x1_0000_0000);
    let kept = total % 0x1_0000_0000;
    if kept + word > u32::MAX {
        vstd::arithmetic::div_mod::lemma_fundamental_div_mod_converse(
            kept + word,
            0x1_0000_0000,
            1,
            kept + word - 0x1_0000_0000,
        );
    } else {
        vstd::arithmetic::div_mod::lemma_small_mod((kept + word) as nat, 0x1_0000_0000);
    }
}

impl SerializedCalibration {
    /// A record takes 156 bytes.
    pub proof fn lemma_bytes_len(self)
        ensures
            self.bytes().len() == CALIBRATION_SIZE,
    {
        self.calibration[0].lemma_bytes_len();
        self.calibration[1].lemma_bytes_len();
    }

    /// Field offset fidelity, from the record: every field of a record is
    /// read back from the record's bytes, whatever the record holds.
    pub proof fn lemma_from_bytes_of_bytes(self)
        ensures
            Self::from_bytes(self.bytes()) == self,
            le_u32(self.bytes(), 152) == self.checksum,
            self.bytes()[155] == le_bytes(self.checksum)[3],
    {
        let bytes = self.bytes();
        let head = self.head_bytes();
        let left = self.calibration[0];
        let right = self.calibration[1];
        self.lemma_bytes_len();
        left.lemma_bytes_len();
        right.lemma_bytes_len();
        assert(bytes.subrange(0, 156) =~= bytes);
        lemma_last_value(bytes, 0, head + left.bytes() + right.bytes(), self.checksum);
        lemma_le_bytes_of_le_u32(bytes, 152);
        assert(bytes.subrange(152, 156)[3] == bytes[155]);
        lemma_stretch_splits(bytes, 0, head + left.bytes(), right.bytes());
        lemma_stretch_splits(bytes, 0, head, left.bytes());
        left.lemma_at_of_bytes(bytes, 16);
        right.lemma_at_of_bytes(bytes, 84);
        let lead = seq![self.signature[0], self.signature[1], self.version, self.score];
        let to_timestamp = lead + le_bytes(self.timestamp);
        let to_baseline = to_timestamp + le_bytes(self.baseline);
        lemma_last_value(bytes, 0, to_baseline, self.q2_init);
        lemma_last_value(bytes, 0, to_timestamp, self.baseline);
        lemma_last_value(bytes, 0, lead, self.timestamp);
        let first = bytes.subrange(0, 4);
        assert(first[0] == bytes[0] && first[1] == bytes[1] && first[2] == bytes[2] && first[3]
            == bytes[3]);
        let got = Self::from_bytes(bytes);
        assert(got.signature =~= self.signature);
        assert(got.calibration =~= self.calibration);
    }

    /// Field offset fidelity, from the bytes: the record read from 156 bytes
    /// writes out to those bytes, each camera to its own 68.
    pub proof fn lemma_bytes_of_from_bytes(bytes: Seq<u8>)
        requires
            bytes.len() == CALIBRATION_SIZE,
        ensures
            Self::from_bytes(bytes).bytes() == bytes,
            Self::from_bytes(bytes).calibration[0].bytes() == bytes.subrange(16, 84),
            Self::from_bytes(bytes).calibration[1].bytes() == bytes.subrange(84, 152),
    {
        let got = Self::from_bytes(bytes);
        assert(seq![bytes[0], bytes[1], bytes[2], bytes[3]] =~= bytes.subrange(0, 4));
        lemma_next_value(bytes, 0, 4);
        lemma_next_value(bytes, 0, 8);
        lemma_next_value(bytes, 0, 12);
        assert(got.head_bytes() == bytes.subrange(0, 16));
        CameraCalibration::lemma_bytes_of_at(bytes, 16);
        CameraCalibration::lemma_bytes_of_at(bytes, 84);
        lemma_stretches_join(bytes, 0, 16, 84);
        lemma_stretches_join(bytes, 0, 84, 152);
        lemma_next_value(bytes, 0, 152);
        assert(bytes.subrange(0, 156) =~= bytes);
    }

    /// What decoding accepts, it accepts as it stands: the record passes the
    /// checks of its fields and writes out to the buffer it was read from, the
    /// camera at index 0 to bytes 16 to 83 and the camera at index 1 to bytes
    /// 84 to 151.
    pub proof fn lemma_decoded_is_exact(bytes: Seq<u8>)
        ensures
            decoded(bytes) matches Ok(record) ==> {
                &&& record.bytes() == bytes
                &&& record.validity() is Ok
                &&& record.calibration[0].bytes() == bytes.subrange(16, 84)
                &&& record.calibration[1].bytes() == bytes.subrange(84, 152)
            },
    {
        if decoded(bytes) is Ok {
            let record = Self::from_bytes(bytes);
            Self::lemma_bytes_of_from_bytes(bytes);
            record.lemma_from_bytes_of_bytes();
        }
    }

    /// The bytes of the empty record are all zero, and neither the record nor
    /// its bytes pass for a calibration: the signature check fails.
    pub proof fn lemma_empty_bytes()
        ensures
            Self::empty().bytes() == Seq::new(CALIBRATION_SIZE as nat, |i: int| 0u8),
            Self::empty().validity() == Err::<(), CalibrationError>(CalibrationError::BadSignature),
            decoded(Self::empty().bytes()) == Err::<SerializedCalibration, CalibrationError>(
                CalibrationError::BadSignature,
            ),
    {
        reveal(IntrinsicCalibration::bytes);
        reveal(ExtrinsicCalibation::bytes);
        let record = Self::empty();
        record.lemma_bytes_len();
        assert(le_bytes(0) =~= seq![0u8, 0u8, 0u8, 0u8]);
        assert(record.bytes() =~= Seq::new(CALIBRATION_SIZE as nat, |i: int| 0u8));
    }
}

/// Round trip: writing a record out and decoding the bytes gives the record
/// back, every field as it was, exactly when the record passes the checks of
/// its fields; when it does not, decoding fails with the record's own fault.
/// A record that passes only by the zero last byte, its checksum not the
/// expected one, comes back with that checksum unchanged.
pub proof fn lemma_decode_of_encode(record: SerializedCalibration)
    ensures
        decoded(record.bytes()) == match record.validity() {
            Ok(_) => Ok::<SerializedCalibration, CalibrationError>(record),
            Err(fault) => Err::<SerializedCalibration, CalibrationError>(fault),
        },
{
    record.lemma_bytes_len();
    record.lemma_from_bytes_of_bytes();
    let bytes = record.bytes();
    assert(SerializedCalibration::from_bytes(bytes).signature[0] == bytes[0]);
    assert(SerializedCalibration::from_bytes(bytes).signature[1] == bytes[1]);
}

/// Checksum tolerance: of a buffer of the right length, signature and
/// version whose stored checksum is not the sum of the words before it,
/// decoding accepts the record if the buffer's last byte is zero, and fails
/// with `ChecksumMismatch` if it is not.
pub proof fn lemma_checksum_tolerance(bytes: Seq<u8>)
    requires
        bytes.len() == CALIBRATION_SIZE,
        bytes[0] == SIGNATURE_FIRST,
        bytes[1] == SIGNATURE_SECOND,
        bytes[2] == CURRENT_CALIBRATION_VERSION,
        le_u32(bytes, 152) != checksum_of(bytes),
    ensures
        bytes[155] == 0 ==> decoded(bytes) == Ok::<SerializedCalibration, CalibrationError>(
            SerializedCalibration::from_bytes(bytes),
        ),
        bytes[155] != 0 ==> decoded(bytes) == Err::<SerializedCalibration, CalibrationError>(
            CalibrationError::ChecksumMismatch,
        ),
{
}

/// Length enforcement: a buffer of any other length than 156 is refused for
/// its length, whatever it holds.
pub proof fn lemma_length_enforced(bytes: Seq<u8>)
    requires
        bytes.len() != CALIBRATION_SIZE,
    ensures
        decoded(bytes) == Err::<SerializedCalibration, CalibrationError>(
            CalibrationError::LengthMismatch,
        ),
{
}

/// Camera order: the camera at index 0 is what the 68 bytes from offset 16
/// hold and the camera at index 1 what the 68 bytes from offset 84 hold,
/// each read from its own block alone.
pub proof fn lemma_cameras_in_order(bytes: Seq<u8>)
    requires
        bytes.len() == CALIBRATION_SIZE,
    ensures
        SerializedCalibration::from_bytes(bytes).calibration[0] == CameraCalibration::at(
            bytes.subrange(16, 84),
            0,
        ),
        SerializedCalibration::from_bytes(bytes).calibration[1] == CameraCalibration::at(
            bytes.subrange(84, 152),
            0,
        ),
{
    let left = bytes.subrange(16, 84);
    let right = bytes.subrange(84, 152);
    CameraCalibration::lemma_bytes_of_at(bytes, 16);
    CameraCalibration::lemma_bytes_of_at(bytes, 84);
    assert(left.subrange(0, 68) =~= left);
    assert(right.subrange(0, 68) =~= right);
    CameraCalibration::at(bytes, 16).lemma_at_of_bytes(left, 0);
    CameraCalibration::at(bytes, 84).lemma_at_of_bytes(right, 0);
}

} // verus!
