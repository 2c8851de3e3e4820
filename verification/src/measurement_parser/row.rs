//! Decoding of one data row by the layout in force.

use crate::measurement_parser::number::{is_float_literal, slice_is_float_literal};
use crate::measurement_parser::sample::{ErrorKind, Point, PointView};
use crate::measurement_parser::variant::FormatVariant;
use crate::text::{
    contains, slice_contains, slice_views, split, split_slice, string_of, trim, trim_slice,
};
use vstd::prelude::*;

verus! {

/// The first of `candidates` that `line` contains, or the last of them where it contains
/// none.
pub open spec fn pick_separator(candidates: Seq<Seq<char>>, line: Seq<char>) -> Seq<char>
    decreases candidates.len(),
{
    if candidates.len() <= 1 || contains(line, candidates[0]) {
        candidates[0]
    } else {
        pick_separator(candidates.drop_first(), line)
    }
}

/// The separator at which a row `line` of the layout `variant` is cut.
pub open spec fn separator_of(variant: FormatVariant, line: Seq<char>) -> Seq<char> {
    pick_separator(variant.separator_candidates(), line)
}

/// `pieces` without the empty ones.
pub open spec fn drop_empty(pieces: Seq<Seq<char>>) -> Seq<Seq<char>> {
    pieces.filter(|piece: Seq<char>| piece.len() > 0)
}

/// Each of `pieces` without the white space around it.
pub open spec fn trim_all(pieces: Seq<Seq<char>>) -> Seq<Seq<char>> {
    pieces.map_values(|piece: Seq<char>| trim(piece))
}

/// The columns of a row: its pieces between the separators, without the empty ones where
/// the layout says so, each trimmed.
pub open spec fn tokens_of(variant: FormatVariant, line: Seq<char>) -> Seq<Seq<char>> {
    let pieces = split(line, separator_of(variant, line));
    trim_all(
        if variant.drops_empty_tokens() {
            drop_empty(pieces)
        } else {
            pieces
        },
    )
}

/// The sample that a row gives, or why it gives none. The first two columns are the
/// frequency and the level, and both must be there and be literals. The third is the
/// phase where the layout has one; a phase that is missing, or is no literal, is absent.
pub open spec fn row_sample(variant: FormatVariant, line: Seq<char>) -> Result<
    PointView,
    ErrorKind,
> {
    let tokens = tokens_of(variant, line);
    if tokens.len() < 2 {
        Err(ErrorKind::MissingColumnError)
    } else if !is_float_literal(tokens[0]) || !is_float_literal(tokens[1]) {
        Err(ErrorKind::NumericParseError)
    } else {
        Ok(
            PointView {
                frequency_hz: tokens[0],
                phase_degrees: if variant.has_phase_column() && tokens.len() > 2
                    && is_float_literal(tokens[2]) {
                    Some(tokens[2])
                } else {
                    None
                },
                spl_db: tokens[1],
            },
        )
    }
}

/// Chooses the separator for a row.
pub fn choose_separator(variant: FormatVariant, line: &[char]) -> (separator: &'static str)
    ensures
        separator@ == separator_of(variant, line@),
        separator@.len() > 0,
{
    proof {
        reveal_with_fuel(pick_separator, 4);
        reveal_strlit("\t");
        reveal_strlit(" ");
        reveal_strlit(",");
        reveal_strlit(", ");
        reveal_strlit("; ");
    }
    match variant {
        FormatVariant::FrequencySplPhase => {
            if slice_contains(line, "\t") {
                "\t"
            } else {
                " "
            }
        },
        FormatVariant::RewV5 => {
            if slice_contains(line, ", ") {
                ", "
            } else if slice_contains(line, "; ") {
                "; "
            } else if slice_contains(line, "\t") {
                "\t"
            } else {
                " "
            }
        },
        FormatVariant::Unknown => {
            if slice_contains(line, ",") {
                ","
            } else if slice_contains(line, "\t") {
                "\t"
            } else {
                " "
            }
        },
        _ => "\t",
    }
}

/// Cuts a row into its columns.
pub fn tokenize<'a>(variant: FormatVariant, line: &'a [char]) -> (tokens: Vec<&'a [char]>)
    ensures
        slice_views(tokens@) == tokens_of(variant, line@),
{
    let separator = choose_separator(variant, line);
    let pieces = split_slice(line, separator);
    let drop = variant.drops_empty_tokens();
    let ghost all = slice_views(pieces@);
    let mut tokens: Vec<&'a [char]> = Vec::new();
    let mut i: usize = 0;
    assert(all.take(0) =~= Seq::<Seq<char>>::empty());
    proof {
        reveal(Seq::filter);
    }
    while i < pieces.len()
        invariant
            i <= pieces.len(),
            all == slice_views(pieces@),
            slice_views(tokens@) == trim_all(
                if drop {
                    drop_empty(all.take(i as int))
                } else {
                    all.take(i as int)
                },
            ),
        decreases pieces.len() - i,
    {
        let piece = pieces[i];
        let ghost before = slice_views(tokens@);
        proof {
            reveal(Seq::filter);
            assert(all.take(i + 1).drop_last() =~= all.take(i as int));
            assert(all.take(i + 1).last() == piece@);
        }
        if !(drop && piece.len() == 0) {
            tokens.push(trim_slice(piece));
            assert(slice_views(tokens@) =~= before.push(trim(piece@)));
            proof {
                if drop {
                    assert(drop_empty(all.take(i + 1)) == drop_empty(all.take(i as int)).push(
                        piece@,
                    ));
                    assert(trim_all(drop_empty(all.take(i as int)).push(piece@)) =~= before.push(
                        trim(piece@),
                    ));
                } else {
                    assert(all.take(i + 1) =~= all.take(i as int).push(piece@));
                    assert(trim_all(all.take(i as int).push(piece@)) =~= before.push(
                        trim(piece@),
                    ));
                }
            }
        } else {
            assert(drop_empty(all.take(i + 1)) == drop_empty(all.take(i as int)));
        }
        i += 1;
    }
    assert(all.take(pieces.len() as int) =~= all);
    tokens
}

/// Decodes one data row.
pub fn decode_row(variant: FormatVariant, line: &[char]) -> (result: Result<Point, ErrorKind>)
    ensures
        match row_sample(variant, line@) {
            Ok(sample) => result matches Ok(point) && point@ == sample,
            Err(kind) => result == Err::<Point, ErrorKind>(kind),
        },
{
    let tokens = tokenize(variant, line);
    proof {
        assert forall|i: int| 0 <= i < tokens@.len() implies tokens@[i]@ == tokens_of(
            variant,
            line@,
        )[i] by {
            assert(slice_views(tokens@)[i] == tokens@[i]@);
        }
    }
    if tokens.len() < 2 {
        return Err(ErrorKind::MissingColumnError);
    }
    let frequency = tokens[0];
    let level = tokens[1];
    if !slice_is_float_literal(frequency) || !slice_is_float_literal(level) {
        return Err(ErrorKind::NumericParseError);
    }
    let phase = if variant.has_phase_column() && tokens.len() > 2 && slice_is_float_literal(
        tokens[2],
    ) {
        Some(string_of(tokens[2]))
    } else {
        None
    };
    Ok(Point { frequency_hz: string_of(frequency), phase_degrees: phase, spl_db: string_of(level) })
}

} // verus!
