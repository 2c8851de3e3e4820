//! The export layouts that the parser tells apart, and what each means for a data row.

use vstd::prelude::*;

verus! {

/// A recognised export layout. A scan starts in `Unknown` and moves to another variant
/// when it meets that variant's banner line.
#[derive(Clone, Copy, PartialEq, Eq, Debug, Structural)]
pub enum FormatVariant {
    Unknown,
    AchoReviews,
    Comment,
    FftAudioTools,
    FrequencyMagnitude,
    FrequencySplPhase,
    RewV5,
    XCurve1,
    XLeft,
    XRight,
}

impl Default for FormatVariant {
    fn default() -> (variant: FormatVariant)
        ensures
            variant == FormatVariant::Unknown,
    {
        FormatVariant::Unknown
    }
}

impl FormatVariant {
    /// The separators that a row of this layout may use, in order of preference. A row is
    /// cut at the first of them that it contains, and at the last where it contains none.
    pub open spec fn separator_candidates(self) -> Seq<Seq<char>> {
        match self {
            FormatVariant::FrequencySplPhase => seq!["\t"@, " "@],
            FormatVariant::RewV5 => seq![", "@, "; "@, "\t"@, " "@],
            FormatVariant::Unknown => seq![","@, "\t"@, " "@],
            _ => seq!["\t"@],
        }
    }

    /// Whether the empty pieces of a row are left out before its columns are counted.
    pub open spec fn spec_drops_empty_tokens(self) -> bool {
        self == FormatVariant::FrequencySplPhase
    }

    /// Whether the third column of a row holds a phase.
    pub open spec fn spec_has_phase_column(self) -> bool {
        match self {
            FormatVariant::AchoReviews
            | FormatVariant::FrequencySplPhase
            | FormatVariant::RewV5
            | FormatVariant::Unknown => true,
            _ => false,
        }
    }

    /// Whether the empty pieces of a row are left out before its columns are counted.
    #[verifier::when_used_as_spec(spec_drops_empty_tokens)]
    pub fn drops_empty_tokens(self) -> (b: bool)
        ensures
            b == self.spec_drops_empty_tokens(),
    {
        self == FormatVariant::FrequencySplPhase
    }

    /// Whether the third column of a row holds a phase.
    #[verifier::when_used_as_spec(spec_has_phase_column)]
    pub fn has_phase_column(self) -> (b: bool)
        ensures
            b == self.spec_has_phase_column(),
    {
        match self {
            FormatVariant::AchoReviews
            | FormatVariant::FrequencySplPhase
            | FormatVariant::RewV5
            | FormatVariant::Unknown => true,
            _ => false,
        }
    }
}

} // verus!
