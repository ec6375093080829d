//! The closed set of failures that extraction and parsing can report.

use vstd::prelude::*;

verus! {

/// The positional fields of one table row, in the order they are written.
#[derive(Clone, Copy, Debug, PartialEq, Eq, Structural)]
pub enum Field {
    /// Token 0: whether the row takes part in frequency scaling.
    ScalingFlag,
    /// Token 1: the frequency.
    Frequency,
    /// Token 2: the clock-source name.
    ClockSource,
    /// Token 3: the clock-source selector.
    SourceSelector,
    /// Token 4: the clock-source value.
    SourceValue,
    /// Token 5: the call-like descriptor of the secondary clock domain.
    Descriptor,
    /// Token 6: the voltage of the tier being read.
    Voltage,
}

/// Why a run failed.
#[derive(Clone, Copy, Debug, PartialEq, Eq, Structural)]
pub enum ParseError {
    /// A required positional token is absent from a row.
    MissingField(Field),
    /// The descriptor token is present but holds no usable inner value.
    MalformedDescriptor,
    /// A tier designator outside the recognized set.
    UnknownTier,
    /// No table block was found, or a found block has no body.
    StructuralMismatch,
    /// A token that must be numeric does not parse.
    NumericParseError(Field),
    /// More rows were accumulated than the ceiling allows.
    SanityLimitExceeded,
    /// One of the fixed patterns was rejected by the pattern compiler.
    InvalidPattern,
}

impl Field {
    /// The position of the field's token within a row.
    pub open spec fn position(self) -> int {
        match self {
            Field::ScalingFlag => 0,
            Field::Frequency => 1,
            Field::ClockSource => 2,
            Field::SourceSelector => 3,
            Field::SourceValue => 4,
            Field::Descriptor => 5,
            Field::Voltage => 6,
        }
    }

    /// The position of the field's token within a row.
    pub fn index(self) -> (i: usize)
        ensures
            i == self.position(),
    {
        match self {
            Field::ScalingFlag => 0,
            Field::Frequency => 1,
            Field::ClockSource => 2,
            Field::SourceSelector => 3,
            Field::SourceValue => 4,
            Field::Descriptor => 5,
            Field::Voltage => 6,
        }
    }
}

impl ParseError {
    /// A one-line description of the failure.
    pub fn message(&self) -> (s: &'static str)
        ensures
            s@ == self.message_text(),
    {
        match self {
            ParseError::MissingField(_) => "Failed to get required item in table row",
            ParseError::MalformedDescriptor => "No value found in L2(...), please fix your kernel",
            ParseError::UnknownTier => "Bad PVS type",
            ParseError::StructuralMismatch => "No acpuclk array found, please fix your kernel",
            ParseError::NumericParseError(_) => "Failed to parse a number in table row",
            ParseError::SanityLimitExceeded => "Bad item count, if you're sure it's correct output please bump the limit value",
            ParseError::InvalidPattern => "Failed to compile a pattern",
        }
    }

    /// The text that `message` returns.
    pub open spec fn message_text(&self) -> Seq<char> {
        match self {
            ParseError::MissingField(_) => "Failed to get required item in table row"@,
            ParseError::MalformedDescriptor => "No value found in L2(...), please fix your kernel"@,
            ParseError::UnknownTier => "Bad PVS type"@,
            ParseError::StructuralMismatch => "No acpuclk array found, please fix your kernel"@,
            ParseError::NumericParseError(_) => "Failed to parse a number in table row"@,
            ParseError::SanityLimitExceeded => "Bad item count, if you're sure it's correct output please bump the limit value"@,
            ParseError::InvalidPattern => "Failed to compile a pattern"@,
        }
    }
}

} // verus!
