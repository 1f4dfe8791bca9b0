//! OpenCL versions: their packed encoding, their text form, and their order.
use vstd::prelude::*;
use crate::cl;
use vstd::string::StringSliceAdditionalSpecFns;
use crate::base::error::{Error, Result};
use crate::base::error_codes::ErrorType;
use crate::base::text::{IntErrorKind, split_bytes, split_on, parse_u32, parse_u32_spec};

verus! {

/// An OpenCL version, packed as `cl_version`: 10 bits of major version,
/// 10 bits of minor version and 12 bits of patch version.
#[derive(Debug, Clone, Copy, PartialEq, Eq, PartialOrd, Ord, Hash, Structural)]
pub struct Version(u32);

/// The packed encoding of a version's parts; each part is cut to its width.
pub open spec fn pack_version(major: u32, minor: u32, patch: u32) -> u32 {
    ((major & 1023u32) << 22u32) | ((minor & 1023u32) << 12u32) | (patch & 4095u32)
}

impl Version {
    /// The packed encoding.
    pub closed spec fn bits(&self) -> u32 {
        self.0
    }

    /// The version whose packed encoding is `bits`.
    pub fn from_bits(bits: u32) -> (v: Self)
        ensures
            v.bits() == bits,
    {
        Version(bits)
    }

    /// The packed encoding of this version.
    pub fn to_bits(&self) -> (bits: u32)
        ensures
            bits == self.bits(),
    {
        self.0
    }

    /// The version `major.minor.patch`, each part cut to its width.
    pub fn from_inner_parts(major: u32, minor: u32, patch: u32) -> (v: Self)
        ensures
            v.bits() == pack_version(major, minor, patch),
    {
        Version(
            ((major & cl::CL_VERSION_MAJOR_MASK) << (cl::CL_VERSION_MINOR_BITS
                + cl::CL_VERSION_PATCH_BITS)) | ((minor & cl::CL_VERSION_MINOR_MASK)
                << cl::CL_VERSION_PATCH_BITS) | (patch & cl::CL_VERSION_PATCH_MASK),
        )
    }

    /// The major version.
    pub fn major(&self) -> (m: u32)
        ensures
            m == self.bits() >> 22u32,
    {
        self.0 >> (cl::CL_VERSION_MINOR_BITS + cl::CL_VERSION_PATCH_BITS)
    }

    /// The minor version.
    pub fn minor(&self) -> (m: u32)
        ensures
            m == (self.bits() >> 12u32) & 1023u32,
    {
        (self.0 >> cl::CL_VERSION_PATCH_BITS) & cl::CL_VERSION_MINOR_MASK
    }

    /// The patch version.
    pub fn patch(&self) -> (p: u32)
        ensures
            p == self.bits() & 4095u32,
    {
        self.0 & cl::CL_VERSION_PATCH_MASK
    }

    /// The triple `(major, minor, patch)`.
    pub fn into_inner_parts(self) -> (parts: (u32, u32, u32))
        ensures
            parts == (self.bits() >> 22u32, (self.bits() >> 12u32) & 1023u32, self.bits() & 4095u32),
    {
        (self.major(), self.minor(), self.patch())
    }

    /// OpenCL 1.0.
    pub fn cl1() -> (v: Self)
        ensures
            v.bits() == pack_version(1, 0, 0),
    {
        Self::from_inner_parts(1, 0, 0)
    }

    /// OpenCL 1.1.
    pub fn cl1_1() -> (v: Self)
        ensures
            v.bits() == pack_version(1, 1, 0),
    {
        Self::from_inner_parts(1, 1, 0)
    }

    /// OpenCL 1.2.
    pub fn cl1_2() -> (v: Self)
        ensures
            v.bits() == pack_version(1, 2, 0),
    {
        Self::from_inner_parts(1, 2, 0)
    }

    /// OpenCL 2.0.
    pub fn cl2() -> (v: Self)
        ensures
            v.bits() == pack_version(2, 0, 0),
    {
        Self::from_inner_parts(2, 0, 0)
    }

    /// OpenCL 2.1.
    pub fn cl2_1() -> (v: Self)
        ensures
            v.bits() == pack_version(2, 1, 0),
    {
        Self::from_inner_parts(2, 1, 0)
    }

    /// OpenCL 2.2.
    pub fn cl2_2() -> (v: Self)
        ensures
            v.bits() == pack_version(2, 2, 0),
    {
        Self::from_inner_parts(2, 2, 0)
    }

    /// OpenCL 3.0.
    pub fn cl3() -> (v: Self)
        ensures
            v.bits() == pack_version(3, 0, 0),
    {
        Self::from_inner_parts(3, 0, 0)
    }

    /// Whether `self` is an earlier version than `other`.
    pub fn is_older_than(&self, other: &Version) -> (b: bool)
        ensures
            b == (self.bits() < other.bits()),
    {
        self.0 < other.0
    }

    /// What [`Version::parse`] gives for the bytes `s`.
    pub open spec fn parse_spec(s: Seq<u8>) -> core::result::Result<u32, IntErrorKind> {
        let p = split_on(s, 46u8);
        match parse_u32_spec(p[0]) {
            Err(e) => Err(e),
            Ok(major) => if p.len() < 2 {
                Err(IntErrorKind::Empty)
            } else {
                match parse_u32_spec(p[1]) {
                    Err(e) => Err(e),
                    Ok(minor) => {
                        let patch = if p.len() >= 3 {
                            parse_u32_spec(p[2])
                        } else {
                            Ok(0u32)
                        };
                        match patch {
                            Err(e) => Err(e),
                            Ok(patch) => if p.len() >= 4 {
                                Err(IntErrorKind::InvalidDigit)
                            } else {
                                Ok(pack_version(major, minor, patch))
                            },
                        }
                    },
                }
            },
        }
    }

    /// Reads a version written `major.minor` or `major.minor.patch`.
    pub fn parse(s: &str) -> (r: core::result::Result<Version, IntErrorKind>)
        ensures
            match Self::parse_spec(s.spec_bytes()) {
                Ok(bits) => r matches Ok(v) && v.bits() == bits,
                Err(e) => r == Err::<Version, IntErrorKind>(e),
            },
    {
        parse_version_bytes(s.as_bytes())
    }
}

impl std::str::FromStr for Version {
    type Err = IntErrorKind;

    fn from_str(s: &str) -> (r: core::result::Result<Self, Self::Err>)
        ensures
            match Version::parse_spec(s.spec_bytes()) {
                Ok(bits) => r matches Ok(v) && v.bits() == bits,
                Err(e) => r == Err::<Version, IntErrorKind>(e),
            },
    {
        Version::parse(s)
    }
}

/// What [`parse_device_version`] reads: the second space-separated word.
pub open spec fn device_version_spec(s: Seq<u8>) -> Option<u32> {
    let words = split_on(s, 32u8);
    if words.len() < 2 {
        None
    } else {
        match Version::parse_spec(words[1]) {
            Ok(bits) => Some(bits),
            Err(_) => None,
        }
    }
}

/// Reads the version out of a device version string such as
/// `"OpenCL 3.0 CUDA"`; an `InvalidValue` error when there is none.
pub fn parse_device_version(s: &str) -> (r: Result<Version>)
    ensures
        match device_version_spec(s.spec_bytes()) {
            Some(bits) => r matches Ok(v) && v.bits() == bits,
            None => r matches Err(e) && e.ty == ErrorType::InvalidValue && e.desc is None,
        },
{
    let bytes = s.as_bytes();
    let words = split_bytes(bytes, 32u8);
    if words.len() < 2 {
        return Err(Error::from_type(ErrorType::InvalidValue));
    }
    let ghost w = words@.map_values(|v: Vec<u8>| v@);
    assert(w[1] == words@[1]@);
    match parse_version_bytes(words[1].as_slice()) {
        Ok(v) => Ok(v),
        Err(_) => Err(Error::from_type(ErrorType::InvalidValue)),
    }
}

/// Reads a driver version string such as `"470.82.01"`; an `InvalidValue`
/// error when it is not one.
pub fn parse_driver_version(s: &str) -> (r: Result<Version>)
    ensures
        match Version::parse_spec(s.spec_bytes()) {
            Ok(bits) => r matches Ok(v) && v.bits() == bits,
            Err(_) => r matches Err(e) && e.ty == ErrorType::InvalidValue && e.desc is None,
        },
{
    match Version::parse(s) {
        Ok(v) => Ok(v),
        Err(_) => Err(Error::from_type(ErrorType::InvalidValue)),
    }
}

fn parse_version_bytes(bytes: &[u8]) -> (r: core::result::Result<Version, IntErrorKind>)
    ensures
        match Version::parse_spec(bytes@) {
            Ok(bits) => r matches Ok(v) && v.bits() == bits,
            Err(e) => r == Err::<Version, IntErrorKind>(e),
        },
{
    let parts = split_bytes(bytes, 46u8);
    let ghost p = parts@.map_values(|v: Vec<u8>| v@);
    assert(p.len() >= 1 && p[0] == parts@[0]@);
    let major = match parse_u32(parts[0].as_slice()) {
        Ok(x) => x,
        Err(e) => return Err(e),
    };
    if parts.len() < 2 {
        return Err(IntErrorKind::Empty);
    }
    assert(p[1] == parts@[1]@);
    let minor = match parse_u32(parts[1].as_slice()) {
        Ok(x) => x,
        Err(e) => return Err(e),
    };
    let patch = if parts.len() >= 3 {
        assert(p[2] == parts@[2]@);
        match parse_u32(parts[2].as_slice()) {
            Ok(x) => x,
            Err(e) => return Err(e),
        }
    } else {
        0
    };
    if parts.len() >= 4 {
        return Err(IntErrorKind::InvalidDigit);
    }
    Ok(Version::from_inner_parts(major, minor, patch))
}

/// The earliest of `versions`, or OpenCL 1.0 when there is none: the
/// greatest version that all the devices of a context support.
pub fn greatest_common_version(versions: &[Version]) -> (v: Version)
    ensures
        versions@.len() == 0 ==> v.bits() == pack_version(1, 0, 0),
        versions@.len() > 0 ==> {
            &&& exists|i: int| 0 <= i < versions@.len() && versions@[i] == v
            &&& forall|i: int| 0 <= i < versions@.len() ==> v.bits() <= (#[trigger] versions@[i]).bits()
        },
{
    let n = versions.len();
    if n == 0 {
        return Version::cl1();
    }
    let mut result = versions[0];
    let mut i: usize = 1;
    while i < n
        invariant
            1 <= i <= n,
            n == versions@.len(),
            exists|k: int| 0 <= k < i && versions@[k] == result,
            forall|k: int| 0 <= k < i ==> result.bits() <= (#[trigger] versions@[k]).bits(),
        decreases n - i,
    {
        let version = versions[i];
        if version.is_older_than(&result) {
            result = version;
        }
        i = i + 1;
    }
    result
}

/// The parts of a packed version are the parts it was made of, cut to their widths.
pub proof fn law_version_parts(major: u32, minor: u32, patch: u32)
    ensures
        pack_version(major, minor, patch) >> 22u32 == major & 1023u32,
        (pack_version(major, minor, patch) >> 12u32) & 1023u32 == minor & 1023u32,
        pack_version(major, minor, patch) & 4095u32 == patch & 4095u32,
{
    assert((((major & 1023u32) << 22u32) | ((minor & 1023u32) << 12u32) | (patch & 4095u32))
        >> 22u32 == major & 1023u32) by (bit_vector);
    assert(((((major & 1023u32) << 22u32) | ((minor & 1023u32) << 12u32) | (patch & 4095u32))
        >> 12u32) & 1023u32 == minor & 1023u32) by (bit_vector);
    assert((((major & 1023u32) << 22u32) | ((minor & 1023u32) << 12u32) | (patch & 4095u32))
        & 4095u32 == patch & 4095u32) by (bit_vector);
}

/// Packing the parts of a version gives the version back.
pub proof fn law_version_repack(v: Version)
    ensures
        pack_version(v.bits() >> 22u32, (v.bits() >> 12u32) & 1023u32, v.bits() & 4095u32) == v.bits(),
{
    let b = v.bits();
    assert((((b >> 22u32) & 1023u32) << 22u32) | ((((b >> 12u32) & 1023u32) & 1023u32) << 12u32)
        | ((b & 4095u32) & 4095u32) == b) by (bit_vector);
}

/// Versions are ordered by major version first, then minor, then patch.
pub proof fn law_version_order(a: (u32, u32, u32), b: (u32, u32, u32))
    requires
        a.0 < 1024 && a.1 < 1024 && a.2 < 4096,
        b.0 < 1024 && b.1 < 1024 && b.2 < 4096,
    ensures
        (pack_version(a.0, a.1, a.2) < pack_version(b.0, b.1, b.2)) == (a.0 < b.0 || (a.0 == b.0
            && (a.1 < b.1 || (a.1 == b.1 && a.2 < b.2)))),
{
    let (x0, x1, x2) = a;
    let (y0, y1, y2) = b;
    assert(((((x0 & 1023u32) << 22u32) | ((x1 & 1023u32) << 12u32) | (x2 & 4095u32)) < (((y0
        & 1023u32) << 22u32) | ((y1 & 1023u32) << 12u32) | (y2 & 4095u32))) == (x0 < y0 || (x0
        == y0 && (x1 < y1 || (x1 == y1 && x2 < y2))))) by (bit_vector)
        requires
            x0 < 1024 && x1 < 1024 && x2 < 4096 && y0 < 1024 && y1 < 1024 && y2 < 4096,
    ;
}

} // verus!
