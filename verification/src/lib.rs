//! Decoders for NetFlow export packets.
//!
//! The heart of the crate is the version 9 pipeline in [`v9`]: packet and
//! flow-set framing, template ingestion into a [`v9::TemplateCache`], and
//! template-driven decoding of data records.

use vstd::prelude::*;

pub mod address;
pub mod cursor;
pub mod endianness;
pub mod v5;
pub mod v7;
pub mod v9;
pub mod wire;

verus! {

/// Why a decode failed.
#[allow(inconsistent_fields)]
#[derive(Debug, PartialEq)]
pub enum Error {
    /// A fixed-size read needed `expected` bytes and only `actual` were there.
    NotEnoughData { expected: usize, actual: usize },
    /// The version field held `actual`, none of the versions in `expected`.
    InvalidVersion { expected: Vec<u16>, actual: u16 },
    /// A template body whose length arithmetic does not add up.
    InvalidTemplate,
    /// A data flow set cites a template that the cache does not hold.
    UnknownTemplate { source_id: u32, template_id: u16 },
}

/// The mathematical value of an [`Error`].
#[allow(inconsistent_fields)]
pub ghost enum ErrorView {
    NotEnoughData { expected: int, actual: int },
    InvalidVersion { expected: Seq<u16>, actual: u16 },
    InvalidTemplate,
    UnknownTemplate { source_id: u32, template_id: u16 },
}

impl View for Error {
    type V = ErrorView;

    open spec fn view(&self) -> ErrorView {
        match *self {
            Error::NotEnoughData { expected, actual } => ErrorView::NotEnoughData {
                expected: expected as int,
                actual: actual as int,
            },
            Error::InvalidVersion { expected, actual } => ErrorView::InvalidVersion {
                expected: expected@,
                actual,
            },
            Error::InvalidTemplate => ErrorView::InvalidTemplate,
            Error::UnknownTemplate { source_id, template_id } => ErrorView::UnknownTemplate {
                source_id,
                template_id,
            },
        }
    }
}

/// Why one of the borrowing decoders refused its bytes, without the numbers.
#[derive(Clone, Copy, Debug, PartialEq, Eq)]
pub enum ErrorKind {
    /// Fewer bytes than the structure takes.
    NotEnoughData,
    /// A version field with another version's number.
    InvalidVersion,
    /// A flow-set id that the kind of flow set asked for cannot have.
    InvalidFlowSetId,
}

/// Fewer bytes than the structure takes.
pub const ERROR_NOT_ENOUGH_DATA: ErrorKind = ErrorKind::NotEnoughData;

/// A version field with another version's number.
pub const ERROR_INVALID_VERSION: ErrorKind = ErrorKind::InvalidVersion;

/// A flow-set id that the kind of flow set asked for cannot have.
pub const ERROR_INVALID_FLOWSET_ID: ErrorKind = ErrorKind::InvalidFlowSetId;

/// The export format versions that have a number.
#[derive(Clone, Copy, Debug, PartialEq, Eq)]
pub enum Version {
    V5,
    V7,
    V9,
    Ipfix,
}

impl Version {
    /// The number that stands for the version on the wire.
    pub open spec fn spec_number(self) -> u16 {
        match self {
            Version::V5 => 5,
            Version::V7 => 7,
            Version::V9 => 9,
            Version::Ipfix => 10,
        }
    }

    /// The number that stands for the version on the wire.
    #[verifier::when_used_as_spec(spec_number)]
    pub fn number(self) -> (n: u16)
        ensures
            n == self.spec_number(),
    {
        match self {
            Version::V5 => 5,
            Version::V7 => 7,
            Version::V9 => 9,
            Version::Ipfix => 10,
        }
    }
}

/// Which of the versions that this crate decodes the packet `s` announces in
/// its first two bytes.
pub open spec fn version_of(s: Seq<u8>) -> Result<Version, ErrorView> {
    if s.len() < 2 {
        Err(short(2, s.len() as int))
    } else if wire::u16_at(s, 0) == 5 {
        Ok(Version::V5)
    } else if wire::u16_at(s, 0) == 7 {
        Ok(Version::V7)
    } else if wire::u16_at(s, 0) == 9 {
        Ok(Version::V9)
    } else {
        Err(
            ErrorView::InvalidVersion {
                expected: seq![5u16, 7u16, 9u16],
                actual: wire::u16_at(s, 0) as u16,
            },
        )
    }
}

/// Tells which version's decoder a packet is for, by its first two bytes.
pub fn peek_version(data: &[u8]) -> (r: Result<Version, Error>)
    ensures
        match r {
            Ok(v) => version_of(data@) == Ok::<Version, ErrorView>(v),
            Err(e) => version_of(data@) == Err::<Version, ErrorView>(e@),
        },
{
    if data.len() < 2 {
        return Err(Error::NotEnoughData { expected: 2, actual: data.len() });
    }
    let version = wire::get_u16(data, 0);
    if version == 5 {
        Ok(Version::V5)
    } else if version == 7 {
        Ok(Version::V7)
    } else if version == 9 {
        Ok(Version::V9)
    } else {
        let expected = vec![5u16, 7u16, 9u16];
        assert(expected@ =~= seq![5u16, 7u16, 9u16]);
        Err(Error::InvalidVersion { expected, actual: version })
    }
}

/// Say hello from netflow crate
pub fn greetings() -> (s: String)
    ensures
        s@ == "Hello from netflow-0.1.0"@,
{
    String::from_str("Hello from netflow-0.1.0")
}

/// The view of a short read: `expected` bytes wanted, `actual` present.
pub open spec fn short(expected: int, actual: int) -> ErrorView {
    ErrorView::NotEnoughData { expected, actual }
}

/// The items of `front` before those of `rest`, or the error of `rest`.
pub open spec fn after<T>(front: Seq<T>, rest: Result<Seq<T>, ErrorView>) -> Result<
    Seq<T>,
    ErrorView,
> {
    match rest {
        Err(e) => Err(e),
        Ok(more) => Ok(front + more),
    }
}

/// Nothing in front changes nothing.
pub proof fn lemma_after_nothing<T>(rest: Result<Seq<T>, ErrorView>)
    ensures
        after(Seq::<T>::empty(), rest) == rest,
{
    if let Ok(more) = rest {
        assert(Seq::<T>::empty() + more =~= more);
    }
}

/// Putting `b` in front and then `a` is putting `a + b` in front.
pub proof fn lemma_after_after<T>(a: Seq<T>, b: Seq<T>, rest: Result<Seq<T>, ErrorView>)
    ensures
        after(a, after(b, rest)) == after(a + b, rest),
{
    if let Ok(more) = rest {
        assert(a + (b + more) =~= (a + b) + more);
    }
}

} // verus!
