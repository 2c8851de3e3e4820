//! The format-sniffing parser for measurement exports.
//!
//! A text is read line by line, from first to last, with one piece of state: the layout
//! in force. A banner line selects a layout, a line without data is passed over, and
//! every other line is a data row, decoded by the layout in force into one sample. The
//! first row that cannot be decoded ends the scan with a failure, and no sample is
//! handed out.

pub mod laws;
pub mod number;
pub mod row;
pub mod rules;
pub mod sample;
pub mod variant;

pub use crate::measurement_parser::sample::{ErrorKind, ParseError, Point};
pub use crate::measurement_parser::variant::FormatVariant;

use crate::measurement_parser::laws::lemma_failure_persists;
use crate::measurement_parser::row::{decode_row, row_sample};
use crate::measurement_parser::rules::{class_of, classify, sentinel_target, LineClass};
use crate::measurement_parser::sample::{point_views, Failure, PointView};
use crate::text::{chars_of, lines, slice_views, split_lines, string_of};
use vstd::prelude::*;

verus! {

/// The layout in force after `lines` have been read: the target of the last banner among
/// them, or `Unknown` where there is none.
pub open spec fn variant_after(lines: Seq<Seq<char>>) -> FormatVariant
    decreases lines.len(),
{
    if lines.len() == 0 {
        FormatVariant::Unknown
    } else {
        match sentinel_target(lines.last()) {
            Some(target) => target,
            None => variant_after(lines.drop_last()),
        }
    }
}

/// What a scan of `lines` gives: the samples of its data rows, in the order of the rows,
/// each decoded by the layout in force at its line; or, where a row cannot be decoded,
/// the failure of the first such row.
pub open spec fn scan(lines: Seq<Seq<char>>) -> Result<Seq<PointView>, Failure>
    decreases lines.len(),
{
    if lines.len() == 0 {
        Ok(Seq::empty())
    } else {
        let before = lines.drop_last();
        let line = lines.last();
        match scan(before) {
            Err(failure) => Err(failure),
            Ok(samples) => match class_of(line) {
                LineClass::DataRow => match row_sample(variant_after(before), line) {
                    Ok(sample) => Ok(samples.push(sample)),
                    Err(kind) => Err(Failure { kind, line_number: lines.len(), line }),
                },
                _ => Ok(samples),
            },
        }
    }
}

/// What a result of `parse` stands for.
pub open spec fn result_view(result: Result<Vec<Point>, ParseError>) -> Result<
    Seq<PointView>,
    Failure,
> {
    match result {
        Ok(points) => Ok(point_views(points@)),
        Err(error) => Err(error@),
    }
}

/// Reads a whole export and returns its samples in the order of their rows, or the
/// failure of the first row that cannot be decoded.
pub fn parse(text: &str) -> (result: Result<Vec<Point>, ParseError>)
    ensures
        result_view(result) == scan(lines(text@)),
{
    let chars = chars_of(text);
    let all = split_lines(chars.as_slice());
    let ghost model = slice_views(all@);
    let mut points: Vec<Point> = Vec::new();
    let mut variant = FormatVariant::Unknown;
    let mut i: usize = 0;
    assert(model.take(0) =~= Seq::<Seq<char>>::empty());
    assert(point_views(points@) =~= Seq::<PointView>::empty());
    while i < all.len()
        invariant
            i <= all.len(),
            model == slice_views(all@),
            model == lines(text@),
            variant == variant_after(model.take(i as int)),
            scan(model.take(i as int)) == Ok::<Seq<PointView>, Failure>(point_views(points@)),
        decreases all.len() - i,
    {
        let line = all[i];
        let ghost before = point_views(points@);
        proof {
            assert(model.take(i + 1).drop_last() =~= model.take(i as int));
            assert(model.take(i + 1).last() == line@);
        }
        match classify(line) {
            LineClass::Sentinel(target) => {
                variant = target;
            },
            LineClass::Ignorable => {},
            LineClass::DataRow => {
                match decode_row(variant, line) {
                    Ok(point) => {
                        points.push(point);
                        assert(point_views(points@) =~= before.push(point@));
                    },
                    Err(kind) => {
                        proof {
                            lemma_failure_persists(model, i + 1);
                        }
                        return Err(ParseError { kind, line_number: i + 1, line: string_of(line) });
                    },
                }
            },
        }
        i += 1;
    }
    assert(model.take(all.len() as int) =~= model);
    Ok(points)
}

} // verus!
