//! The `Content-Range` header of a partial-content response.

use crate::text::{
    field_value, find_byte, is_digit, lemma_digits_value, lemma_position, parse_u64, position,
    split_once, FieldError, PLUS,
};
use vstd::prelude::*;
use vstd::slice::slice_subrange;
use vstd::string::StringSliceAdditionalSpecFns;

verus! {

/// The byte ` `, between the unit and the range.
pub const SPACE: u8 = 0x20;

/// The byte `-`, between the first and the last position.
pub const HYPHEN: u8 = 0x2d;

/// The byte `/`, before the complete length.
pub const SLASH: u8 = 0x2f;

/// The byte `*`, in place of a range that cannot be satisfied.
pub const STAR: u8 = 0x2a;

/// The horizontal tab.
pub const TAB: u8 = 0x09;

/// Content Range
#[derive(Clone, Copy, Debug, Eq, Hash, PartialEq, Structural)]
pub enum ContentRange {
    /// Full Range Data
    ///
    /// The server sent the bytes from `start` to `end`, both included, of `size` bytes in all.
    Full {
        /// Starting index
        start: u64,
        /// Ending index
        end: u64,
        /// Total size of the data stored on the server
        size: u64,
    },
    /// Size Data
    ///
    /// The range asked for starts where the data ends: only the total size comes back.
    Size(u64),
}

/// Content Range Parse Error
#[derive(Clone, Copy, Debug, Eq, PartialEq, Structural)]
pub enum ContentRangeParseError {
    /// Missing Space
    MissingSpace,
    /// Missing Bytes Tag
    MissingBytesTag,
    /// Missing Slash
    MissingSlash,
    /// Missing Star
    MissingStar,
    /// Invalid Start Index
    InvalidStart(FieldError),
    /// Invalid End Index
    InvalidEnd(FieldError),
    /// Invalid Size Index
    InvalidSize(FieldError),
    /// Invalid Range: the three numbers are read, and the range that they give does not lie
    /// inside the data
    InvalidRange,
}

/// The unit of every range: the bytes of `bytes`.
pub open spec fn bytes_tag() -> Seq<u8> {
    seq![0x62u8, 0x79u8, 0x74u8, 0x65u8, 0x73u8]
}

/// What `first-last/size` stands for, the three fields already parted: the range from the first
/// to the last position of data of that size, where the three are numbers with
/// `first <= last < size`.
pub open spec fn full_range(start: Seq<u8>, end: Seq<u8>, size: Seq<u8>) -> Result<
    ContentRange,
    ContentRangeParseError,
> {
    match field_value(start) {
        Err(e) => Err(ContentRangeParseError::InvalidStart(e)),
        Ok(start) => match field_value(end) {
            Err(e) => Err(ContentRangeParseError::InvalidEnd(e)),
            Ok(end) => match field_value(size) {
                Err(e) => Err(ContentRangeParseError::InvalidSize(e)),
                Ok(size) => if start <= end < size {
                    Ok(ContentRange::Full { start, end, size })
                } else {
                    Err(ContentRangeParseError::InvalidRange)
                },
            },
        },
    }
}

/// What the part after `bytes ` stands for.
pub open spec fn range_value(range: Seq<u8>) -> Result<ContentRange, ContentRangeParseError> {
    match split_once(range, HYPHEN) {
        Some((start, end_and_size)) => match split_once(end_and_size, SLASH) {
            Some((end, size)) => full_range(start, end, size),
            None => Err(ContentRangeParseError::MissingSlash),
        },
        None => match split_once(range, SLASH) {
            Some((star, size)) => if star == seq![STAR] {
                match field_value(size) {
                    Ok(size) => Ok(ContentRange::Size(size)),
                    Err(e) => Err(ContentRangeParseError::InvalidSize(e)),
                }
            } else {
                Err(ContentRangeParseError::MissingStar)
            },
            None => Err(ContentRangeParseError::MissingSlash),
        },
    }
}

/// What a header value stands for: `bytes first-last/size` or `bytes */size`, and for anything
/// else the first thing that is found missing or malformed.
pub open spec fn header_value(header: Seq<u8>) -> Result<ContentRange, ContentRangeParseError> {
    match split_once(header, SPACE) {
        None => Err(ContentRangeParseError::MissingSpace),
        Some((tag, range)) => if tag == bytes_tag() {
            range_value(range)
        } else {
            Err(ContentRangeParseError::MissingBytesTag)
        },
    }
}

/// Whether a byte may stand in a header value that is read as text: printable ASCII or a tab.
pub open spec fn is_visible_ascii(b: u8) -> bool {
    32 <= b < 127 || b == TAB
}

/// Whether a header value can be read as text.
pub open spec fn is_text(header: Seq<u8>) -> bool {
    forall|i: int| 0 <= i < header.len() ==> is_visible_ascii(#[trigger] header[i])
}

/// The range that a response announces: what its header stands for, where it has one that
/// stands for a range.
pub open spec fn announced_range(header: Option<Seq<u8>>) -> Option<ContentRange> {
    match header {
        Some(value) => match header_value(value) {
            Ok(range) => Some(range),
            Err(_) => None,
        },
        None => None,
    }
}

fn is_bytes_tag(tag: &[u8]) -> (same: bool)
    ensures
        same == (tag@ == bytes_tag()),
{
    let same = tag.len() == 5 && tag[0] == 0x62 && tag[1] == 0x79 && tag[2] == 0x74 && tag[3]
        == 0x65 && tag[4] == 0x73;
    proof {
        if same {
            assert(tag@ =~= bytes_tag());
        }
    }
    same
}

fn parse_full(start: &[u8], end: &[u8], size: &[u8]) -> (parsed: Result<
    ContentRange,
    ContentRangeParseError,
>)
    ensures
        parsed == full_range(start@, end@, size@),
{
    let start = match parse_u64(start) {
        Ok(start) => start,
        Err(e) => return Err(ContentRangeParseError::InvalidStart(e)),
    };
    let end = match parse_u64(end) {
        Ok(end) => end,
        Err(e) => return Err(ContentRangeParseError::InvalidEnd(e)),
    };
    match parse_u64(size) {
        Ok(size) => if start <= end && end < size {
            Ok(ContentRange::Full { start, end, size })
        } else {
            Err(ContentRangeParseError::InvalidRange)
        },
        Err(e) => Err(ContentRangeParseError::InvalidSize(e)),
    }
}

fn parse_range(range: &[u8]) -> (parsed: Result<ContentRange, ContentRangeParseError>)
    ensures
        parsed == range_value(range@),
{
    let len = range.len();
    match find_byte(range, HYPHEN) {
        Some(hyphen) => {
            let start = slice_subrange(range, 0, hyphen);
            let end_and_size = slice_subrange(range, hyphen + 1, len);
            match find_byte(end_and_size, SLASH) {
                Some(slash) => {
                    let end = slice_subrange(end_and_size, 0, slash);
                    let size = slice_subrange(end_and_size, slash + 1, len - hyphen - 1);
                    parse_full(start, end, size)
                },
                None => Err(ContentRangeParseError::MissingSlash),
            }
        },
        None => match find_byte(range, SLASH) {
            Some(slash) => {
                let star = slice_subrange(range, 0, slash);
                let size = slice_subrange(range, slash + 1, len);
                if star.len() == 1 && star[0] == STAR {
                    assert(star@ =~= seq![STAR]);
                    match parse_u64(size) {
                        Ok(size) => Ok(ContentRange::Size(size)),
                        Err(e) => Err(ContentRangeParseError::InvalidSize(e)),
                    }
                } else {
                    Err(ContentRangeParseError::MissingStar)
                }
            },
            None => Err(ContentRangeParseError::MissingSlash),
        },
    }
}

/// A field that stands for a number is made of digits, after a `+` or not.
proof fn lemma_field_is_text(field: Seq<u8>)
    requires
        field_value(field) is Ok,
    ensures
        is_text(field),
{
    if field[0] == PLUS {
        let digits = field.skip(1);
        lemma_digits_value(digits);
        assert forall|i: int| 0 <= i < field.len() implies is_visible_ascii(
            #[trigger] field[i],
        ) by {
            if i > 0 {
                assert(is_digit(digits[i - 1]));
            }
        }
    } else {
        lemma_digits_value(field);
        assert forall|i: int| 0 <= i < field.len() implies is_visible_ascii(
            #[trigger] field[i],
        ) by {
            assert(is_digit(field[i]));
        }
    }
}

/// The two parts that `split_once` gives, with the byte between them, are the whole.
proof fn lemma_split_once_joins(s: Seq<u8>, b: u8)
    requires
        split_once(s, b) is Some,
    ensures
        s == split_once(s, b)->Some_0.0 + seq![b] + split_once(s, b)->Some_0.1,
{
    lemma_position(s, b);
    let p = position(s, b);
    assert(s =~= s.subrange(0, p) + seq![b] + s.subrange(p + 1, s.len() as int));
}

/// A header value that stands for a range is text: printable ASCII throughout. Reading the
/// header as text before it is parsed, as `HeaderValue::to_str` of the `http` crate does, can
/// therefore refuse nothing that parses.
pub proof fn lemma_parsed_header_is_text(header: Seq<u8>)
    requires
        header_value(header) is Ok,
    ensures
        is_text(header),
        header_value(header)->Ok_0.well_formed(),
{
    lemma_split_once_joins(header, SPACE);
    let (tag, range) = split_once(header, SPACE)->Some_0;
    assert(is_text(tag));
    if split_once(range, HYPHEN) is Some {
        lemma_split_once_joins(range, HYPHEN);
        let (start, end_and_size) = split_once(range, HYPHEN)->Some_0;
        lemma_split_once_joins(end_and_size, SLASH);
        let (end, size) = split_once(end_and_size, SLASH)->Some_0;
        lemma_field_is_text(start);
        lemma_field_is_text(end);
        lemma_field_is_text(size);
        assert(is_text(end_and_size));
        assert(is_text(range));
    } else {
        lemma_split_once_joins(range, SLASH);
        let (star, size) = split_once(range, SLASH)->Some_0;
        lemma_field_is_text(size);
        assert(is_text(range));
    }
}

impl ContentRange {
    /// Whether the range lies inside the data: `start <= end < size`. A size alone always does.
    pub open spec fn well_formed(self) -> bool {
        match self {
            ContentRange::Full { start, end, size } => start <= end < size,
            ContentRange::Size(_) => true,
        }
    }

    /// Whether the range lies inside the data.
    pub fn is_well_formed(&self) -> (ok: bool)
        ensures
            ok == self.well_formed(),
    {
        match *self {
            ContentRange::Full { start, end, size } => start <= end && end < size,
            ContentRange::Size(_) => true,
        }
    }

    /// Parses the bytes of a header value. What comes out is a range inside the data.
    pub fn from_bytes(header: &[u8]) -> (parsed: Result<ContentRange, ContentRangeParseError>)
        ensures
            parsed == header_value(header@),
            parsed is Ok ==> parsed->Ok_0.well_formed(),
    {
        let len = header.len();
        match find_byte(header, SPACE) {
            None => Err(ContentRangeParseError::MissingSpace),
            Some(space) => {
                let tag = slice_subrange(header, 0, space);
                let range = slice_subrange(header, space + 1, len);
                if is_bytes_tag(tag) {
                    parse_range(range)
                } else {
                    Err(ContentRangeParseError::MissingBytesTag)
                }
            },
        }
    }

    /// Parses a header value given as text; see [`ContentRange::from_bytes`].
    pub fn from_str(range_string: &str) -> (parsed: Result<ContentRange, ContentRangeParseError>)
        ensures
            parsed == header_value(range_string.spec_bytes()),
            parsed is Ok ==> parsed->Ok_0.well_formed(),
    {
        ContentRange::from_bytes(range_string.as_bytes())
    }

    /// Reads the range from the `Content-Range` header of a response, given as the bytes of its
    /// first value or `None` where the response has no such header. Returns `None` if the header
    /// did not exist or if it did exist but could not be parsed. A header that parses is text
    /// (see [`lemma_parsed_header_is_text`]), so nothing else has to be asked of it.
    pub fn from_response(header: Option<&[u8]>) -> (range: Option<ContentRange>)
        ensures
            range == announced_range(
                match header {
                    Some(value) => Some(value@),
                    None => None,
                },
            ),
            range is Some ==> range->Some_0.well_formed(),
            range is Some ==> is_text(header->Some_0@),
    {
        match header {
            Some(value) => match ContentRange::from_bytes(value) {
                Ok(range) => {
                    proof {
                        lemma_parsed_header_is_text(value@);
                    }
                    Some(range)
                },
                Err(_) => None,
            },
            None => None,
        }
    }
}

impl core::str::FromStr for ContentRange {
    type Err = ContentRangeParseError;

    /// Parses a header value given as text, as [`ContentRange::from_bytes`] does.
    fn from_str(range_string: &str) -> (parsed: Result<ContentRange, ContentRangeParseError>)
        ensures
            parsed == header_value(range_string.spec_bytes()),
            parsed is Ok ==> parsed->Ok_0.well_formed(),
    {
        ContentRange::from_bytes(range_string.as_bytes())
    }
}

} // verus!
