//! The AVIF encoder: its settings, the flags for adding frames, and what
//! becomes of libavif's reports when it writes a file.

use vstd::prelude::*;

use crate::data::Data;
use crate::error::{Error, Result};
use crate::image::Image;
use crate::sys;

verus! {

/// The flags of `avifEncoderAddImage`, a set of the bits
/// `AVIF_ADD_IMAGE_FLAG_FORCE_KEYFRAME` and `AVIF_ADD_IMAGE_FLAG_SINGLE`.
#[derive(Debug, Clone, Copy, PartialEq, Eq, Hash, Structural)]
pub struct AddImageFlags {
    bits: sys::avifAddImageFlags,
}

/// The bits that name a flag.
pub open spec fn all_flag_bits() -> u32 {
    sys::AVIF_ADD_IMAGE_FLAG_FORCE_KEYFRAME | sys::AVIF_ADD_IMAGE_FLAG_SINGLE
}

impl View for AddImageFlags {
    type V = u32;

    closed spec fn view(&self) -> u32 {
        self.bits
    }
}

impl AddImageFlags {
    /// Only bits that name a flag are set.
    #[verifier::type_invariant]
    closed spec fn inv(self) -> bool {
        self.bits & !all_flag_bits() == 0
    }

    /// No flag (`AVIF_ADD_IMAGE_FLAG_NONE`).
    pub fn none() -> (f: Self)
        ensures
            f@ == sys::AVIF_ADD_IMAGE_FLAG_NONE,
    {
        assert(0u32 & !(1u32 | 2u32) == 0) by (bit_vector);
        AddImageFlags { bits: sys::AVIF_ADD_IMAGE_FLAG_NONE }
    }

    /// Force this frame to be a keyframe.
    pub fn force_keyframe() -> (f: Self)
        ensures
            f@ == sys::AVIF_ADD_IMAGE_FLAG_FORCE_KEYFRAME,
    {
        assert(1u32 & !(1u32 | 2u32) == 0) by (bit_vector);
        AddImageFlags { bits: sys::AVIF_ADD_IMAGE_FLAG_FORCE_KEYFRAME }
    }

    /// The image is a single image, not a frame of a sequence.
    pub fn single() -> (f: Self)
        ensures
            f@ == sys::AVIF_ADD_IMAGE_FLAG_SINGLE,
    {
        assert(2u32 & !(1u32 | 2u32) == 0) by (bit_vector);
        AddImageFlags { bits: sys::AVIF_ADD_IMAGE_FLAG_SINGLE }
    }

    /// The empty set.
    pub fn empty() -> (f: Self)
        ensures
            f@ == 0,
    {
        Self::none()
    }

    /// Every flag.
    pub fn all() -> (f: Self)
        ensures
            f@ == all_flag_bits(),
    {
        let bits = sys::AVIF_ADD_IMAGE_FLAG_FORCE_KEYFRAME | sys::AVIF_ADD_IMAGE_FLAG_SINGLE;
        assert((1u32 | 2u32) & !(1u32 | 2u32) == 0) by (bit_vector);
        AddImageFlags { bits }
    }

    /// The bits, as `avifEncoderAddImage` takes them.
    pub fn bits(&self) -> (b: sys::avifAddImageFlags)
        ensures
            b == self@,
    {
        self.bits
    }

    /// The set with exactly these bits, if each names a flag.
    pub fn from_bits(bits: sys::avifAddImageFlags) -> (f: Option<Self>)
        ensures
            bits & !all_flag_bits() == 0 ==> f == Some(AddImageFlags::spec_from_bits(bits)),
            bits & !all_flag_bits() != 0 ==> f is None,
            f matches Some(g) ==> g@ == bits,
    {
        if bits & !(sys::AVIF_ADD_IMAGE_FLAG_FORCE_KEYFRAME | sys::AVIF_ADD_IMAGE_FLAG_SINGLE) == 0 {
            Some(AddImageFlags { bits })
        } else {
            None
        }
    }

    /// The set of the given bits that name a flag; the others are dropped.
    pub fn from_bits_truncate(bits: sys::avifAddImageFlags) -> (f: Self)
        ensures
            f@ == bits & all_flag_bits(),
    {
        let b = bits & (sys::AVIF_ADD_IMAGE_FLAG_FORCE_KEYFRAME | sys::AVIF_ADD_IMAGE_FLAG_SINGLE);
        assert((bits & (1u32 | 2u32)) & !(1u32 | 2u32) == 0) by (bit_vector);
        AddImageFlags { bits: b }
    }

    /// The set with these bits.
    pub closed spec fn spec_from_bits(bits: u32) -> AddImageFlags {
        AddImageFlags { bits }
    }

    /// No flag is set.
    pub fn is_empty(&self) -> (b: bool)
        ensures
            b == (self@ == 0),
    {
        self.bits == 0
    }

    /// Every flag is set.
    pub fn is_all(&self) -> (b: bool)
        ensures
            b == (self@ == all_flag_bits()),
    {
        self.bits == (sys::AVIF_ADD_IMAGE_FLAG_FORCE_KEYFRAME | sys::AVIF_ADD_IMAGE_FLAG_SINGLE)
    }

    /// Every flag of `other` is set here too.
    pub fn contains(&self, other: Self) -> (b: bool)
        ensures
            b == (self@ & other@ == other@),
    {
        self.bits & other.bits == other.bits
    }

    /// Some flag is set in both.
    pub fn intersects(&self, other: Self) -> (b: bool)
        ensures
            b == (self@ & other@ != 0),
    {
        self.bits & other.bits != 0
    }

    /// The flags set in either.
    pub fn union(self, other: Self) -> (f: Self)
        ensures
            f@ == self@ | other@,
    {
        proof {
            use_type_invariant(self);
            use_type_invariant(other);
        }
        let a = self.bits;
        let b = other.bits;
        assert((a & !(1u32 | 2u32) == 0 && b & !(1u32 | 2u32) == 0) ==> (a | b) & !(1u32 | 2u32)
            == 0) by (bit_vector);
        AddImageFlags { bits: a | b }
    }

    /// The flags set in both.
    pub fn intersection(self, other: Self) -> (f: Self)
        ensures
            f@ == self@ & other@,
    {
        proof {
            use_type_invariant(self);
        }
        let a = self.bits;
        let b = other.bits;
        assert(a & !(1u32 | 2u32) == 0 ==> (a & b) & !(1u32 | 2u32) == 0) by (bit_vector);
        AddImageFlags { bits: a & b }
    }

    /// The flags set here but not in `other`.
    pub fn difference(self, other: Self) -> (f: Self)
        ensures
            f@ == self@ & !other@,
    {
        proof {
            use_type_invariant(self);
        }
        let a = self.bits;
        let b = other.bits;
        assert(a & !(1u32 | 2u32) == 0 ==> (a & !b) & !(1u32 | 2u32) == 0) by (bit_vector);
        AddImageFlags { bits: a & !b }
    }

    /// The flags set in exactly one of the two.
    pub fn symmetric_difference(self, other: Self) -> (f: Self)
        ensures
            f@ == self@ ^ other@,
    {
        proof {
            use_type_invariant(self);
            use_type_invariant(other);
        }
        let a = self.bits;
        let b = other.bits;
        assert((a & !(1u32 | 2u32) == 0 && b & !(1u32 | 2u32) == 0) ==> (a ^ b) & !(1u32 | 2u32)
            == 0) by (bit_vector);
        AddImageFlags { bits: a ^ b }
    }

    /// The flags not set here.
    pub fn complement(self) -> (f: Self)
        ensures
            f@ == !self@ & all_flag_bits(),
    {
        Self::from_bits_truncate(!self.bits)
    }

    /// Flips the flags of `other`.
    pub fn toggle(&mut self, other: Self)
        ensures
            final(self)@ == old(self)@ ^ other@,
    {
        *self = self.symmetric_difference(other);
    }

    /// Sets the flags of `other` when `value` holds, clears them otherwise.
    pub fn set(&mut self, other: Self, value: bool)
        ensures
            value ==> final(self)@ == old(self)@ | other@,
            !value ==> final(self)@ == old(self)@ & !other@,
    {
        if value {
            self.insert(other);
        } else {
            self.remove(other);
        }
    }

    /// The flags that are set, one at a time, in the order of their bits.
    pub fn iter(&self) -> (v: Vec<Self>)
        ensures
            v@.len() == (if self@ & 1 != 0 { 1int } else { 0 }) + (if self@ & 2 != 0 { 1int } else { 0 }),
            self@ & 1 != 0 ==> v@[0]@ == 1,
            self@ & 2 != 0 ==> v@[v@.len() - 1]@ == 2,
    {
        let mut v: Vec<Self> = Vec::new();
        if self.bits & sys::AVIF_ADD_IMAGE_FLAG_FORCE_KEYFRAME != 0 {
            v.push(Self::force_keyframe());
        }
        if self.bits & sys::AVIF_ADD_IMAGE_FLAG_SINGLE != 0 {
            v.push(Self::single());
        }
        v
    }

    /// Sets the flags of `other`.
    pub fn insert(&mut self, other: Self)
        ensures
            final(self)@ == old(self)@ | other@,
    {
        *self = self.union(other);
    }

    /// Clears the flags of `other`.
    pub fn remove(&mut self, other: Self)
        ensures
            final(self)@ == old(self)@ & !other@,
    {
        *self = self.difference(other);
    }
}

impl core::ops::BitOr for AddImageFlags {
    type Output = Self;

    fn bitor(self, other: Self) -> (f: Self)
        ensures
            f@ == self@ | other@,
    {
        self.union(other)
    }
}

impl core::ops::BitAnd for AddImageFlags {
    type Output = Self;

    fn bitand(self, other: Self) -> (f: Self)
        ensures
            f@ == self@ & other@,
    {
        self.intersection(other)
    }
}

impl core::ops::BitXor for AddImageFlags {
    type Output = Self;

    fn bitxor(self, other: Self) -> (f: Self)
        ensures
            f@ == self@ ^ other@,
    {
        self.symmetric_difference(other)
    }
}

impl core::ops::Sub for AddImageFlags {
    type Output = Self;

    fn sub(self, other: Self) -> (f: Self)
        ensures
            f@ == self@ & !other@,
    {
        self.difference(other)
    }
}

impl core::ops::Not for AddImageFlags {
    type Output = Self;

    fn not(self) -> (f: Self)
        ensures
            f@ == !self@ & all_flag_bits(),
    {
        self.complement()
    }
}

impl vstd::std_specs::ops::BitOrSpecImpl for AddImageFlags {
    open spec fn obeys_bitor_spec() -> bool {
        true
    }

    open spec fn bitor_req(self, rhs: Self) -> bool {
        true
    }

    open spec fn bitor_spec(self, rhs: Self) -> Self {
        AddImageFlags::spec_from_bits(self@ | rhs@)
    }
}

impl vstd::std_specs::ops::BitAndSpecImpl for AddImageFlags {
    open spec fn obeys_bitand_spec() -> bool {
        true
    }

    open spec fn bitand_req(self, rhs: Self) -> bool {
        true
    }

    open spec fn bitand_spec(self, rhs: Self) -> Self {
        AddImageFlags::spec_from_bits(self@ & rhs@)
    }
}

impl vstd::std_specs::ops::BitXorSpecImpl for AddImageFlags {
    open spec fn obeys_bitxor_spec() -> bool {
        true
    }

    open spec fn bitxor_req(self, rhs: Self) -> bool {
        true
    }

    open spec fn bitxor_spec(self, rhs: Self) -> Self {
        AddImageFlags::spec_from_bits(self@ ^ rhs@)
    }
}

impl vstd::std_specs::ops::SubSpecImpl for AddImageFlags {
    open spec fn obeys_sub_spec() -> bool {
        true
    }

    open spec fn sub_req(self, rhs: Self) -> bool {
        true
    }

    open spec fn sub_spec(self, rhs: Self) -> Self {
        AddImageFlags::spec_from_bits(self@ & !rhs@)
    }
}

impl vstd::std_specs::ops::NotSpecImpl for AddImageFlags {
    open spec fn obeys_not_spec() -> bool {
        true
    }

    open spec fn not_req(self) -> bool {
        true
    }

    open spec fn not_spec(self) -> Self {
        AddImageFlags::spec_from_bits(!self@ & all_flag_bits())
    }
}

/// Flags inserted are contained afterwards, flags removed are gone, and a
/// union contains both sides.
pub proof fn lemma_flags_insert_remove(a: AddImageFlags, b: AddImageFlags)
    ensures
        (a@ | b@) & b@ == b@,
        (a@ | b@) & a@ == a@,
        (a@ & !b@) & b@ == 0,
{
    let (x, y) = (a@, b@);
    assert((x | y) & y == y && (x | y) & x == x && (x & !y) & y == 0) by (bit_vector);
}

/// What libavif reports when it writes a file: its result code and the
/// buffer it filled.
pub struct Written {
    pub result: sys::avifResult,
    pub output: sys::avifRWData,
}

/// The outcome of a write that libavif reported as `written`: its error
/// code, an empty-output error when it produced no buffer, or the bytes it
/// wrote.
pub open spec fn write_outcome(written: Written, r: Result<Data>) -> bool {
    if !written.result.is_ok_spec() {
        r matches Err(e) && e == Error::Code(written.result)
    } else {
        match written.output.data {
            None => r matches Err(Error::EmptyOutput),
            Some(bytes) => r matches Ok(d) && d@ == bytes@,
        }
    }
}

/// Takes over the buffer that libavif wrote, if it reported success and
/// produced one.
fn take_output(written: Written) -> (r: Result<Data>)
    ensures
        write_outcome(written, r),
{
    let Written { result, output } = written;
    if result.0 != sys::AVIF_RESULT_OK {
        return Err(result.into());
    }
    match output.data {
        Some(bytes) => Ok(Data::from_bytes(bytes)),
        None => Err(Error::EmptyOutput),
    }
}

/// What `avifEncoderWrite` is handed: the encoder, as its settings stand,
/// and the image to encode.
#[derive(Clone, Copy, Debug, PartialEq, Eq, Structural)]
pub struct WriteRequest {
    pub settings: sys::avifEncoder,
    pub image: sys::avifImage,
}

/// What `avifEncoderAddImage` is handed: the encoder, as its settings
/// stand, the frame, its duration in timescales and the flag bits.
#[derive(Clone, Copy, Debug, PartialEq, Eq, Structural)]
pub struct AddImageRequest {
    pub settings: sys::avifEncoder,
    pub image: sys::avifImage,
    pub duration_in_timescales: u64,
    pub flags: sys::avifAddImageFlags,
}

/// An AVIF encoder.
pub struct Encoder {
    raw: sys::avifEncoder,
}

impl View for Encoder {
    type V = sys::avifEncoder;

    closed spec fn view(&self) -> sys::avifEncoder {
        self.raw
    }
}

impl Encoder {
    /// The encoder that libavif created, with the settings it gave it, or
    /// [`Error::AllocationFailed`] when it could not create one.
    pub fn new(created: Option<sys::avifEncoder>) -> (r: Result<Self>)
        ensures
            created is None ==> r matches Err(Error::AllocationFailed),
            created matches Some(raw) ==> (r matches Ok(e) && e@ == raw),
    {
        match created {
            Some(raw) => Ok(Encoder { raw }),
            None => Err(Error::AllocationFailed),
        }
    }

    /// Takes over an encoder that libavif made.
    pub fn from_raw(raw: sys::avifEncoder) -> (e: Self)
        ensures
            e@ == raw,
    {
        Encoder { raw }
    }

    /// The underlying libavif encoder.
    pub fn as_raw(&self) -> (raw: &sys::avifEncoder)
        ensures
            *raw == self@,
    {
        &self.raw
    }

    /// The underlying libavif encoder, for changing it.
    pub fn as_raw_mut(&mut self) -> (raw: &mut sys::avifEncoder)
        ensures
            *raw == old(self)@,
            final(self)@ == *final(raw),
    {
        &mut self.raw
    }

    /// Sets the number of threads libavif may use.
    pub fn set_max_threads(&mut self, max_threads: i32) -> (this: &mut Self)
        ensures
            this@ == (sys::avifEncoder { maxThreads: max_threads, ..old(self)@ }),
            final(self)@ == final(this)@,
    {
        self.raw.maxThreads = max_threads;
        self
    }

    /// The number of threads libavif may use.
    pub fn max_threads(&self) -> (n: i32)
        ensures
            n == self@.maxThreads,
    {
        self.raw.maxThreads
    }

    /// Sets the encoding speed.
    pub fn set_speed(&mut self, speed: i32) -> (this: &mut Self)
        ensures
            this@ == (sys::avifEncoder { speed, ..old(self)@ }),
            final(self)@ == final(this)@,
    {
        self.raw.speed = speed;
        self
    }

    /// The encoding speed.
    pub fn speed(&self) -> (s: i32)
        ensures
            s == self@.speed,
    {
        self.raw.speed
    }

    /// Sets the quality of the color planes.
    pub fn set_quality(&mut self, quality: i32) -> (this: &mut Self)
        ensures
            this@ == (sys::avifEncoder { quality, ..old(self)@ }),
            final(self)@ == final(this)@,
    {
        self.raw.quality = quality;
        self
    }

    /// The quality of the color planes.
    pub fn quality(&self) -> (q: i32)
        ensures
            q == self@.quality,
    {
        self.raw.quality
    }

    /// The call that encodes `image` as a single-image file with this
    /// encoder.
    pub fn write_request(&self, image: &Image) -> (r: WriteRequest)
        ensures
            r.settings == self@,
            r.image == image@,
    {
        WriteRequest { settings: self.raw, image: *image.as_raw() }
    }

    /// The call that adds `image` as a frame lasting
    /// `duration_in_timescales`, with the given flags.
    pub fn add_image_request(&self, image: &Image, duration_in_timescales: u64, flags: AddImageFlags) -> (r: AddImageRequest)
        ensures
            r.settings == self@,
            r.image == image@,
            r.duration_in_timescales == duration_in_timescales,
            r.flags == flags@,
    {
        AddImageRequest {
            settings: self.raw,
            image: *image.as_raw(),
            duration_in_timescales,
            flags: flags.bits(),
        }
    }

    /// The encoder that `avifEncoderFinish` is handed, as its settings stand.
    pub fn finish_request(&self) -> (r: sys::avifEncoder)
        ensures
            r == self@,
    {
        self.raw
    }

    /// The AVIF file of a single image, from what `avifEncoderWrite`
    /// reported when this encoder wrote it: the bytes written, or the error
    /// code, or [`Error::EmptyOutput`] when libavif succeeded without
    /// producing a buffer. The encoder is used up.
    pub fn encode(self, written: Written) -> (r: Result<Data>)
        ensures
            write_outcome(written, r),
    {
        take_output(written)
    }

    /// The outcome of adding a frame, from the result code that
    /// `avifEncoderAddImage` reported.
    pub fn add_image(&mut self, result: sys::avifResult) -> (r: Result<()>)
        ensures
            *final(self) == *old(self),
            result.is_ok_spec() ==> r is Ok,
            !result.is_ok_spec() ==> r == Err::<(), Error>(Error::Code(result)),
    {
        if result.0 != sys::AVIF_RESULT_OK {
            return Err(result.into());
        }
        Ok(())
    }

    /// The AVIF file of the frames added, from what `avifEncoderFinish`
    /// reported; as for [`Encoder::encode`]. The encoder is used up.
    pub fn finish(self, written: Written) -> (r: Result<Data>)
        ensures
            write_outcome(written, r),
    {
        take_output(written)
    }
}

} // verus!
