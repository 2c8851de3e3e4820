//! What a scan produces: samples, or the one failure that ended it.

use crate::measurement_parser::number::is_float_literal;
use vstd::prelude::*;

verus! {

/// One measurement point. Each number is held as the decimal literal that the export
/// gives for it, without the white space around it.
#[derive(Clone, Debug, PartialEq, Eq)]
pub struct Point {
    /// The frequency, in hertz.
    pub frequency_hz: String,
    /// The phase, in degrees, where the row gives one.
    pub phase_degrees: Option<String>,
    /// The sound pressure level, in decibels.
    pub spl_db: String,
}

/// A measurement point as the contracts see it.
pub struct PointView {
    pub frequency_hz: Seq<char>,
    pub phase_degrees: Option<Seq<char>>,
    pub spl_db: Seq<char>,
}

impl PointView {
    /// Every number of the point is a literal of the grammar.
    pub open spec fn well_formed(self) -> bool {
        &&& is_float_literal(self.frequency_hz)
        &&& is_float_literal(self.spl_db)
        &&& self.phase_degrees matches Some(phase) ==> is_float_literal(phase)
    }
}

impl View for Point {
    type V = PointView;

    open spec fn view(&self) -> PointView {
        PointView {
            frequency_hz: self.frequency_hz@,
            phase_degrees: match self.phase_degrees {
                Some(phase) => Some(phase@),
                None => None,
            },
            spl_db: self.spl_db@,
        }
    }
}

/// The views of a sequence of points.
pub open spec fn point_views(points: Seq<Point>) -> Seq<PointView> {
    points.map_values(|p: Point| p@)
}

/// Why a data row could not be decoded.
#[derive(Clone, Copy, PartialEq, Eq, Debug, Structural)]
pub enum ErrorKind {
    /// The frequency or the level is there, but is no decimal literal.
    NumericParseError,
    /// The row has fewer than the two columns that every layout asks for.
    MissingColumnError,
}

/// The failure that ended a scan.
#[derive(Clone, Debug, PartialEq, Eq)]
pub struct ParseError {
    /// Why the row could not be decoded.
    pub kind: ErrorKind,
    /// The number of the row's line, counted from one.
    pub line_number: usize,
    /// The line as it stands in the text.
    pub line: String,
}

/// A failure as the contracts see it.
pub struct Failure {
    pub kind: ErrorKind,
    pub line_number: nat,
    pub line: Seq<char>,
}

impl View for ParseError {
    type V = Failure;

    open spec fn view(&self) -> Failure {
        Failure { kind: self.kind, line_number: self.line_number as nat, line: self.line@ }
    }
}

} // verus!
