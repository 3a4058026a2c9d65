//! The factory calibration record of the device: its fixed 156-byte layout,
//! the rules that make a record acceptable, and the conversions between a
//! record and its bytes.
//!
//! | offset | size | field |
//! |---|---|---|
//! | 0 | 2 | signature, `"CA"` |
//! | 2 | 1 | version |
//! | 3 | 1 | score |
//! | 4 | 4 | timestamp |
//! | 8 | 4 | baseline |
//! | 12 | 4 | q2 init |
//! | 16 | 68 | left camera: 44 bytes of intrinsics, 24 of extrinsics |
//! | 84 | 68 | right camera, likewise |
//! | 152 | 4 | checksum |
//!
//! Every multi-byte field is stored least significant byte first, the order of
//! the firmware that writes the record. Floating-point fields are IEEE-754
//! single precision; the codec never computes with them and carries each one
//! as its 32-bit pattern (`f32::to_bits` / `f32::from_bits` on the caller's
//! side).
//!
//! The checksum is the firmware's own: the plain sum of the 38 words before
//! it, modulo 2^32. A record whose last byte is zero is accepted whatever the
//! sum; devices in the field depend on that allowance, and it is kept as it
//! is.

use crate::calib::laws::lemma_sum_wraps;
use crate::wire::{le_bytes, le_u32, read_u32_le, write_u32_le};
use vstd::prelude::*;

pub mod laws;

verus! {

/// The latest calibration version that the firmware writes.
pub const CURRENT_CALIBRATION_VERSION: u8 = 2;

/// The byte offset of the checksum field in the bytes of a record.
pub const CURRENT_CALIB_VER_CHECKSUM_OFFSET: u32 = 152;

/// The number of bytes of a record: the checksum offset and the checksum's own four bytes.
pub const CALIBRATION_SIZE: usize = 156;

/// The number of 32-bit words that precede the checksum, and that it sums.
pub const CHECKSUMMED_WORDS: usize = 38;

/// The first signature byte, ASCII `C`.
pub const SIGNATURE_FIRST: u8 = 0x43;

/// The second signature byte, ASCII `A`.
pub const SIGNATURE_SECOND: u8 = 0x41;

/// What makes the codec reject a buffer or a record.
#[derive(Clone, Copy, Debug, PartialEq, Eq, Structural)]
pub enum CalibrationError {
    /// The buffer is not exactly `CALIBRATION_SIZE` bytes long.
    LengthMismatch,
    /// The first two bytes are not `"CA"`.
    BadSignature,
    /// The version byte is not `CURRENT_CALIBRATION_VERSION`.
    UnsupportedVersion,
    /// The stored checksum is not the sum of the words before it, and its
    /// last byte is not zero.
    ChecksumMismatch,
}

/// The lens parameters of one camera: eleven values, 44 bytes.
#[derive(Clone, Copy, Debug, PartialEq, Eq)]
pub struct IntrinsicCalibration {
    /// Focal length.
    pub f: u32,
    /// Principal point offset, x then y.
    pub offset: [u32; 2],
    /// Tangential distortion coefficients.
    pub tangential: [u32; 2],
    /// Radial distortion coefficients.
    pub radial: [u32; 6],
}

/// The pose parameters of one camera: six values, 24 bytes.
#[derive(Clone, Copy, Debug, PartialEq, Eq)]
pub struct ExtrinsicCalibation {
    /// Scale factor of this camera.
    pub f: u32,
    /// Offset along x.
    pub x0: u32,
    /// Offset along y.
    pub y0: u32,
    /// Rotation components, in the firmware's own convention.
    pub rotation: [u32; 3],
}

/// The calibration of one camera: intrinsics, then extrinsics, 68 bytes.
#[derive(Clone, Copy, Debug, PartialEq, Eq)]
pub struct CameraCalibration {
    pub intrinsics: IntrinsicCalibration,
    pub extrinsics: ExtrinsicCalibation,
}

/// One calibration record, as the device stores and sends it.
#[derive(Clone, Copy, Debug, PartialEq, Eq)]
pub struct SerializedCalibration {
    /// Must be `"CA"`. Identifier header for serialized calibrations.
    pub signature: [u8; 2],
    /// Single-byte version field.
    pub version: u8,
    /// Score of the calibration, as the firmware rated it.
    pub score: u8,
    /// When this calibration was generated: by convention seconds since the
    /// Unix epoch, kept as the raw 32-bit value.
    pub timestamp: u32,
    /// Stereo baseline distance.
    pub baseline: u32,
    /// Disparity-to-depth parameter.
    pub q2_init: u32,
    /// The two single-camera calibrations: left at index 0, right at index 1.
    pub calibration: [CameraCalibration; 2],
    /// The sum of every 32-bit word before this field, modulo 2^32.
    pub checksum: u32,
}

/// The sum, not yet reduced, of the first `words` 32-bit words of `bytes`.
pub open spec fn word_sum(bytes: Seq<u8>, words: nat) -> int
    decreases words,
{
    if words == 0 {
        0
    } else {
        word_sum(bytes, (words - 1) as nat) + le_u32(bytes, 4 * (words - 1))
    }
}

/// The checksum that the bytes of a record call for: the sum of the 38 words
/// before the checksum field, modulo 2^32.
pub open spec fn checksum_of(bytes: Seq<u8>) -> u32 {
    (word_sum(bytes, CHECKSUMMED_WORDS as nat) % 0x1_0000_0000) as u32
}

/// Whether the checksum stored in `bytes` passes: it is the sum of the words
/// before it, or the record's last byte is zero.
pub open spec fn checksum_passes(bytes: Seq<u8>) -> bool {
    le_u32(bytes, 152) == checksum_of(bytes) || bytes[155] == 0
}

/// What decoding `bytes` gives: the first failing check in the order length,
/// signature, version, checksum; or the record read field by field.
pub open spec fn decoded(bytes: Seq<u8>) -> Result<SerializedCalibration, CalibrationError> {
    if bytes.len() != CALIBRATION_SIZE {
        Err(CalibrationError::LengthMismatch)
    } else if bytes[0] != SIGNATURE_FIRST || bytes[1] != SIGNATURE_SECOND {
        Err(CalibrationError::BadSignature)
    } else if bytes[2] != CURRENT_CALIBRATION_VERSION {
        Err(CalibrationError::UnsupportedVersion)
    } else if !checksum_passes(bytes) {
        Err(CalibrationError::ChecksumMismatch)
    } else {
        Ok(SerializedCalibration::from_bytes(bytes))
    }
}

impl IntrinsicCalibration {
    /// The intrinsics whose bytes begin at `bytes[at]`.
    pub open spec fn at(bytes: Seq<u8>, at: int) -> IntrinsicCalibration {
        IntrinsicCalibration {
            f: le_u32(bytes, at),
            offset: [le_u32(bytes, at + 4), le_u32(bytes, at + 8)],
            tangential: [le_u32(bytes, at + 12), le_u32(bytes, at + 16)],
            radial: [
                le_u32(bytes, at + 20),
                le_u32(bytes, at + 24),
                le_u32(bytes, at + 28),
                le_u32(bytes, at + 32),
                le_u32(bytes, at + 36),
                le_u32(bytes, at + 40),
            ],
        }
    }

    /// The 44 bytes of these intrinsics, field after field.
    #[verifier::opaque]
    pub open spec fn bytes(self) -> Seq<u8> {
        le_bytes(self.f) + le_bytes(self.offset[0]) + le_bytes(self.offset[1]) + le_bytes(
            self.tangential[0],
        ) + le_bytes(self.tangential[1]) + le_bytes(self.radial[0]) + le_bytes(self.radial[1])
            + le_bytes(self.radial[2]) + le_bytes(self.radial[3]) + le_bytes(self.radial[4])
            + le_bytes(self.radial[5])
    }
}

impl ExtrinsicCalibation {
    /// The extrinsics whose bytes begin at `bytes[at]`.
    pub open spec fn at(bytes: Seq<u8>, at: int) -> ExtrinsicCalibation {
        ExtrinsicCalibation {
            f: le_u32(bytes, at),
            x0: le_u32(bytes, at + 4),
            y0: le_u32(bytes, at + 8),
            rotation: [le_u32(bytes, at + 12), le_u32(bytes, at + 16), le_u32(bytes, at + 20)],
        }
    }

    /// The 24 bytes of these extrinsics, field after field.
    #[verifier::opaque]
    pub open spec fn bytes(self) -> Seq<u8> {
        le_bytes(self.f) + le_bytes(self.x0) + le_bytes(self.y0) + le_bytes(self.rotation[0])
            + le_bytes(self.rotation[1]) + le_bytes(self.rotation[2])
    }
}

impl CameraCalibration {
    /// The camera calibration whose bytes begin at `bytes[at]`: intrinsics at
    /// `at`, extrinsics 44 bytes further.
    pub open spec fn at(bytes: Seq<u8>, at: int) -> CameraCalibration {
        CameraCalibration {
            intrinsics: IntrinsicCalibration::at(bytes, at),
            extrinsics: ExtrinsicCalibation::at(bytes, at + 44),
        }
    }

    /// The 68 bytes of this camera calibration: those of its intrinsics, then
    /// those of its extrinsics.
    pub open spec fn bytes(self) -> Seq<u8> {
        self.intrinsics.bytes() + self.extrinsics.bytes()
    }
}

impl SerializedCalibration {
    /// The record that a buffer holds, each field read at its offset.
    pub open spec fn from_bytes(bytes: Seq<u8>) -> SerializedCalibration {
        SerializedCalibration {
            signature: [bytes[0], bytes[1]],
            version: bytes[2],
            score: bytes[3],
            timestamp: le_u32(bytes, 4),
            baseline: le_u32(bytes, 8),
            q2_init: le_u32(bytes, 12),
            calibration: [CameraCalibration::at(bytes, 16), CameraCalibration::at(bytes, 84)],
            checksum: le_u32(bytes, 152),
        }
    }

    /// The bytes that lead a record, before the cameras.
    pub open spec fn head_bytes(self) -> Seq<u8> {
        seq![self.signature[0], self.signature[1], self.version, self.score] + le_bytes(
            self.timestamp,
        ) + le_bytes(self.baseline) + le_bytes(self.q2_init)
    }

    /// The 156 bytes of this record, field after field with nothing between
    /// them. The checksum is written as it is stored.
    pub open spec fn bytes(self) -> Seq<u8> {
        self.head_bytes() + self.calibration[0].bytes() + self.calibration[1].bytes() + le_bytes(
            self.checksum,
        )
    }

    /// The record of which every byte is zero.
    pub open spec fn empty() -> SerializedCalibration {
        let camera = CameraCalibration {
            intrinsics: IntrinsicCalibration { f: 0, offset: [0, 0], tangential: [0, 0], radial: [0, 0, 0, 0, 0, 0] },
            extrinsics: ExtrinsicCalibation { f: 0, x0: 0, y0: 0, rotation: [0, 0, 0] },
        };
        SerializedCalibration {
            signature: [0, 0],
            version: 0,
            score: 0,
            timestamp: 0,
            baseline: 0,
            q2_init: 0,
            calibration: [camera, camera],
            checksum: 0,
        }
    }

    /// The checksum that the fields before the checksum call for.
    pub open spec fn expected_checksum(self) -> u32 {
        checksum_of(self.bytes())
    }

    /// Why this record is not acceptable, if it is not: the first failing
    /// check in the order signature, version, checksum. The checksum passes
    /// when it is the expected one, or when the last of its bytes as stored
    /// is zero.
    pub open spec fn validity(self) -> Result<(), CalibrationError> {
        if self.signature[0] != SIGNATURE_FIRST || self.signature[1] != SIGNATURE_SECOND {
            Err(CalibrationError::BadSignature)
        } else if self.version != CURRENT_CALIBRATION_VERSION {
            Err(CalibrationError::UnsupportedVersion)
        } else if self.checksum != self.expected_checksum() && le_bytes(self.checksum)[3] != 0 {
            Err(CalibrationError::ChecksumMismatch)
        } else {
            Ok(())
        }
    }
}

impl IntrinsicCalibration {
    fn read(bytes: &[u8], at: usize) -> (intrinsics: IntrinsicCalibration)
        requires
            at + 44 <= bytes@.len() <= usize::MAX,
        ensures
            intrinsics == Self::at(bytes@, at as int),
    {
        IntrinsicCalibration {
            f: read_u32_le(bytes, at),
            offset: [read_u32_le(bytes, at + 4), read_u32_le(bytes, at + 8)],
            tangential: [read_u32_le(bytes, at + 12), read_u32_le(bytes, at + 16)],
            radial: [
                read_u32_le(bytes, at + 20),
                read_u32_le(bytes, at + 24),
                read_u32_le(bytes, at + 28),
                read_u32_le(bytes, at + 32),
                read_u32_le(bytes, at + 36),
                read_u32_le(bytes, at + 40),
            ],
        }
    }

    fn write(&self, out: &mut Vec<u8>)
        ensures
            final(out)@ == old(out)@ + self.bytes(),
    {
        write_u32_le(out, self.f);
        write_u32_le(out, self.offset[0]);
        write_u32_le(out, self.offset[1]);
        write_u32_le(out, self.tangential[0]);
        write_u32_le(out, self.tangential[1]);
        write_u32_le(out, self.radial[0]);
        write_u32_le(out, self.radial[1]);
        write_u32_le(out, self.radial[2]);
        write_u32_le(out, self.radial[3]);
        write_u32_le(out, self.radial[4]);
        write_u32_le(out, self.radial[5]);
        proof {
            reveal(IntrinsicCalibration::bytes);
            assert(out@ =~= old(out)@ + self.bytes());
        }
    }
}

impl ExtrinsicCalibation {
    fn read(bytes: &[u8], at: usize) -> (extrinsics: ExtrinsicCalibation)
        requires
            at + 24 <= bytes@.len() <= usize::MAX,
        ensures
            extrinsics == Self::at(bytes@, at as int),
    {
        ExtrinsicCalibation {
            f: read_u32_le(bytes, at),
            x0: read_u32_le(bytes, at + 4),
            y0: read_u32_le(bytes, at + 8),
            rotation: [
                read_u32_le(bytes, at + 12),
                read_u32_le(bytes, at + 16),
                read_u32_le(bytes, at + 20),
            ],
        }
    }

    fn write(&self, out: &mut Vec<u8>)
        ensures
            final(out)@ == old(out)@ + self.bytes(),
    {
        write_u32_le(out, self.f);
        write_u32_le(out, self.x0);
        write_u32_le(out, self.y0);
        write_u32_le(out, self.rotation[0]);
        write_u32_le(out, self.rotation[1]);
        write_u32_le(out, self.rotation[2]);
        proof {
            reveal(ExtrinsicCalibation::bytes);
            assert(out@ =~= old(out)@ + self.bytes());
        }
    }
}

impl CameraCalibration {
    fn read(bytes: &[u8], at: usize) -> (camera: CameraCalibration)
        requires
            at + 68 <= bytes@.len() <= usize::MAX,
        ensures
            camera == Self::at(bytes@, at as int),
    {
        CameraCalibration {
            intrinsics: IntrinsicCalibration::read(bytes, at),
            extrinsics: ExtrinsicCalibation::read(bytes, at + 44),
        }
    }

    fn write(&self, out: &mut Vec<u8>)
        ensures
            final(out)@ == old(out)@ + self.bytes(),
    {
        self.intrinsics.write(out);
        self.extrinsics.write(out);
        assert(out@ =~= old(out)@ + self.bytes());
    }
}

/// Sums the first `words` little-endian 32-bit words of `bytes`, wrapping
/// around at 2^32 as the firmware does.
fn sum_words(bytes: &[u8], words: usize) -> (sum: u32)
    requires
        4 * words <= bytes@.len() <= usize::MAX,
    ensures
        sum == word_sum(bytes@, words as nat) % 0x1_0000_0000,
{
    let mut sum: u32 = 0;
    let mut done: usize = 0;
    while done < words
        invariant
            done <= words,
            4 * words <= bytes@.len() <= usize::MAX,
            sum == word_sum(bytes@, done as nat) % 0x1_0000_0000,
        decreases words - done,
    {
        let word = read_u32_le(bytes, 4 * done);
        proof {
            lemma_sum_wraps(word_sum(bytes@, done as nat), word);
        }
        sum = sum.wrapping_add(word);
        done = done + 1;
    }
    sum
}

impl SerializedCalibration {
    /// Returns a calibration consisting entirely of zeros. Such a calibration
    /// is not a valid calibration to use and is intended only for e.g. empty
    /// buffer allocation: its bytes do not decode.
    pub fn empty_calibration() -> (record: SerializedCalibration)
        ensures
            record == Self::empty(),
            record.bytes() == Seq::new(CALIBRATION_SIZE as nat, |i: int| 0u8),
            record.validity() == Err::<(), CalibrationError>(CalibrationError::BadSignature),
            decoded(record.bytes()) == Err::<SerializedCalibration, CalibrationError>(
                CalibrationError::BadSignature,
            ),
    {
        let camera = CameraCalibration {
            intrinsics: IntrinsicCalibration {
                f: 0,
                offset: [0, 0],
                tangential: [0, 0],
                radial: [0, 0, 0, 0, 0, 0],
            },
            extrinsics: ExtrinsicCalibation { f: 0, x0: 0, y0: 0, rotation: [0, 0, 0] },
        };
        proof {
            Self::lemma_empty_bytes();
        }
        SerializedCalibration {
            signature: [0, 0],
            version: 0,
            score: 0,
            timestamp: 0,
            baseline: 0,
            q2_init: 0,
            calibration: [camera, camera],
            checksum: 0,
        }
    }

    /// Writes the record out: 156 bytes, each field at its offset, the
    /// checksum as it is stored.
    pub fn encode(&self) -> (out: Vec<u8>)
        ensures
            out@ == self.bytes(),
            out@.len() == CALIBRATION_SIZE,
    {
        let mut out: Vec<u8> = Vec::with_capacity(CALIBRATION_SIZE);
        out.push(self.signature[0]);
        out.push(self.signature[1]);
        out.push(self.version);
        out.push(self.score);
        write_u32_le(&mut out, self.timestamp);
        write_u32_le(&mut out, self.baseline);
        write_u32_le(&mut out, self.q2_init);
        assert(out@ =~= self.head_bytes());
        self.calibration[0].write(&mut out);
        self.calibration[1].write(&mut out);
        write_u32_le(&mut out, self.checksum);
        proof {
            self.lemma_bytes_len();
        }
        out
    }

    /// Reads a record from the bytes that the device sent.
    ///
    /// The buffer must be exactly 156 bytes long, begin with `"CA"`, carry
    /// version 2, and its checksum must pass; the first of these that fails
    /// is the error. Nothing is corrected or defaulted: an accepted record
    /// holds what the buffer holds, the left camera from bytes 16 to 83 and
    /// the right camera from bytes 84 to 151, and writes out to the same
    /// bytes.
    pub fn decode(bytes: &[u8]) -> (result: Result<SerializedCalibration, CalibrationError>)
        ensures
            result == decoded(bytes@),
            bytes@.len() != CALIBRATION_SIZE ==> result == Err::<
                SerializedCalibration,
                CalibrationError,
            >(CalibrationError::LengthMismatch),
            result matches Ok(record) ==> {
                &&& record.bytes() == bytes@
                &&& record.validity() is Ok
                &&& record.calibration[0].bytes() == bytes@.subrange(16, 84)
                &&& record.calibration[1].bytes() == bytes@.subrange(84, 152)
            },
    {
        if bytes.len() != CALIBRATION_SIZE {
            return Err(CalibrationError::LengthMismatch);
        }
        let record = SerializedCalibration {
            signature: [bytes[0], bytes[1]],
            version: bytes[2],
            score: bytes[3],
            timestamp: read_u32_le(bytes, 4),
            baseline: read_u32_le(bytes, 8),
            q2_init: read_u32_le(bytes, 12),
            calibration: [CameraCalibration::read(bytes, 16), CameraCalibration::read(bytes, 84)],
            checksum: read_u32_le(bytes, 152),
        };
        if record.signature[0] != SIGNATURE_FIRST || record.signature[1] != SIGNATURE_SECOND {
            return Err(CalibrationError::BadSignature);
        }
        if record.version != CURRENT_CALIBRATION_VERSION {
            return Err(CalibrationError::UnsupportedVersion);
        }
        let sum = sum_words(bytes, CHECKSUMMED_WORDS);
        if record.checksum != sum && bytes[155] != 0 {
            return Err(CalibrationError::ChecksumMismatch);
        }
        proof {
            Self::lemma_decoded_is_exact(bytes@);
        }
        Ok(record)
    }

    /// Computes the checksum that this record should carry: the sum of the 38
    /// words before the checksum field, modulo 2^32.
    pub fn compute_checksum(&self) -> (sum: u32)
        ensures
            sum == self.expected_checksum(),
    {
        let bytes = self.encode();
        sum_words(bytes.as_slice(), CHECKSUMMED_WORDS)
    }

    /// Checks what decoding checks of a record's fields: the signature, the
    /// version, then the checksum.
    pub fn validate(&self) -> (result: Result<(), CalibrationError>)
        ensures
            result == self.validity(),
    {
        if self.signature[0] != SIGNATURE_FIRST || self.signature[1] != SIGNATURE_SECOND {
            return Err(CalibrationError::BadSignature);
        }
        if self.version != CURRENT_CALIBRATION_VERSION {
            return Err(CalibrationError::UnsupportedVersion);
        }
        let sum = self.compute_checksum();
        let stored = self.checksum;
        assert(stored >> 24 == stored / 0x100_0000) by (bit_vector);
        if stored != sum && stored >> 24 != 0 {
            return Err(CalibrationError::ChecksumMismatch);
        }
        Ok(())
    }
}

/// Reads a calibration record from the bytes that the device sent in answer to
/// the calibration request; see [`SerializedCalibration::decode`].
pub fn decode_calibration(bytes: &[u8]) -> (result: Result<
    SerializedCalibration,
    CalibrationError,
>)
    ensures
        result == decoded(bytes@),
{
    SerializedCalibration::decode(bytes)
}

} // verus!
