//! What holds of every scan.

use crate::measurement_parser::row::row_sample;
use crate::measurement_parser::rules::{
    class_of, first_match, is_ignorable, pattern_matches, sentinel_table, sentinel_target,
    LineClass, Matcher, Pattern,
};
use crate::measurement_parser::sample::{ErrorKind, ParseError, Point, PointView};
use crate::measurement_parser::variant::FormatVariant;
use crate::measurement_parser::{result_view, scan, variant_after};
use crate::text::lines;
use vstd::prelude::*;

verus! {

/// Once the first `k` lines have ended in a failure, all the lines end in that failure.
pub proof fn lemma_failure_persists(lines: Seq<Seq<char>>, k: int)
    requires
        0 <= k <= lines.len(),
        scan(lines.take(k)) is Err,
    ensures
        scan(lines) == scan(lines.take(k)),
    decreases lines.len() - k,
{
    if k == lines.len() {
        assert(lines.take(k) =~= lines);
    } else {
        assert(lines.take(k + 1).drop_last() =~= lines.take(k));
        lemma_failure_persists(lines, k + 1);
    }
}

/// A banner line puts its layout in force and gives no sample: the scan of the lines
/// before it is left as it was.
pub proof fn law_banner_selects_layout(before: Seq<Seq<char>>, line: Seq<char>)
    requires
        sentinel_target(line) is Some,
    ensures
        variant_after(before.push(line)) == sentinel_target(line)->0,
        scan(before.push(line)) == scan(before),
{
    assert(before.push(line).drop_last() =~= before);
}

/// A line that is no banner leaves the layout in force as it was.
pub proof fn law_only_banners_change_layout(before: Seq<Seq<char>>, line: Seq<char>)
    requires
        sentinel_target(line) is None,
    ensures
        variant_after(before.push(line)) == variant_after(before),
{
    assert(before.push(line).drop_last() =~= before);
}

/// A line that meets a rule for lines without data gives no sample, and leaves the
/// layout in force as it was unless it is a banner too.
pub proof fn law_line_without_data_is_passed_over(before: Seq<Seq<char>>, line: Seq<char>)
    requires
        is_ignorable(line),
    ensures
        scan(before.push(line)) == scan(before),
        sentinel_target(line) is None ==> variant_after(before.push(line)) == variant_after(
            before,
        ),
{
    assert(before.push(line).drop_last() =~= before);
}

/// A line that meets a rule of at least five characters has the rule's characters at
/// the places by which the banner rules are told apart.
proof fn lemma_match_fixes_leading_characters(pattern: Pattern, line: Seq<char>)
    requires
        pattern.text.len() >= 5,
        pattern_matches(pattern, line),
    ensures
        line.len() >= 5,
        line[0] == pattern.text[0],
        line[1] == pattern.text[1],
        line[2] == pattern.text[2],
        line[4] == pattern.text[4],
{
    let n = pattern.text.len() as int;
    if pattern.matcher == Matcher::Prefix {
        let head = line.subrange(0, n);
        assert(head[0] == line[0]);
        assert(head[1] == line[1]);
        assert(head[2] == line[2]);
        assert(head[4] == line[4]);
    }
}

/// The table of banners is free of conflict: a line that meets one of its rules selects
/// that rule's layout, whatever rules stand before it.
pub proof fn law_every_banner_rule_selects_its_layout(line: Seq<char>, i: int)
    requires
        0 <= i < sentinel_table().len(),
        pattern_matches(sentinel_table()[i].0, line),
    ensures
        sentinel_target(line) == Some(sentinel_table()[i].1),
{
    reveal_with_fuel(first_match, 12);
    reveal_strlit("* +info = www.achoreviews.com/solospec");
    reveal_strlit("+info = www.achoreviews.com");
    reveal_strlit("Comment: TJ Comment\t");
    reveal_strlit("FFT\tAudioTools");
    reveal_strlit("Frequency(Hz)\t   Magnitude(dB)");
    reveal_strlit("Freq[Hz]     dBSPL  Phase[Deg]");
    reveal_strlit("Freq[Hz]\tdBSPL\tPhase[Deg]");
    reveal_strlit("* Measurement data measured by REW V5");
    reveal_strlit("x\tCurve1");
    reveal_strlit("x\tLEFT");
    reveal_strlit("x\tRIGHT");
    let table = sentinel_table();
    assert forall|k: int| 0 <= k < table.len() implies (#[trigger] table[k]).0.text.len()
        >= 5 by {}
    lemma_match_fixes_leading_characters(table[i].0, line);
    assert forall|j: int| 0 <= j < table.len() && table[j].1 != table[i].1 implies !pattern_matches(
        (#[trigger] table[j]).0,
        line,
    ) by {
        if pattern_matches(table[j].0, line) {
            lemma_match_fixes_leading_characters(table[j].0, line);
        }
    }
}

/// No banner selects the layout `Unknown`.
pub proof fn law_no_banner_selects_unknown(line: Seq<char>)
    ensures
        sentinel_target(line) != Some(FormatVariant::Unknown),
{
    reveal_with_fuel(first_match, 12);
}

/// The layout in force is `Unknown` until the first banner, and never again after it.
pub proof fn law_unknown_holds_until_the_first_banner(lines: Seq<Seq<char>>)
    ensures
        variant_after(lines) == FormatVariant::Unknown <==> forall|i: int|
            0 <= i < lines.len() ==> sentinel_target(#[trigger] lines[i]) is None,
    decreases lines.len(),
{
    if lines.len() > 0 {
        let before = lines.drop_last();
        law_unknown_holds_until_the_first_banner(before);
        law_no_banner_selects_unknown(lines.last());
        if sentinel_target(lines.last()) is None {
            if variant_after(before) == FormatVariant::Unknown {
                assert forall|i: int| 0 <= i < lines.len() implies sentinel_target(
                    #[trigger] lines[i],
                ) is None by {
                    if i < before.len() {
                        assert(before[i] == lines[i]);
                    }
                }
            } else {
                let i = choose|i: int|
                    0 <= i < before.len() && !(sentinel_target(#[trigger] before[i]) is None);
                assert(lines[i] == before[i]);
            }
        } else {
            assert(lines[lines.len() - 1] == lines.last());
        }
    }
}

/// The places of the data rows among `lines`, in rising order.
pub open spec fn data_rows(lines: Seq<Seq<char>>) -> Seq<int>
    decreases lines.len(),
{
    if lines.len() == 0 {
        Seq::empty()
    } else {
        let before = data_rows(lines.drop_last());
        if class_of(lines.last()) == LineClass::DataRow {
            before.push(lines.len() - 1)
        } else {
            before
        }
    }
}

/// `data_rows` lists the data rows, all of them, each once, from first to last.
pub proof fn law_data_rows_lists_the_rows_in_order(lines: Seq<Seq<char>>)
    ensures
        forall|k: int|
            0 <= k < data_rows(lines).len() ==> {
                &&& 0 <= #[trigger] data_rows(lines)[k] < lines.len()
                &&& class_of(lines[data_rows(lines)[k]]) == LineClass::DataRow
            },
        forall|j: int, k: int|
            0 <= j < k < data_rows(lines).len() ==> data_rows(lines)[j] < data_rows(lines)[k],
        forall|i: int|
            0 <= i < lines.len() && class_of(#[trigger] lines[i]) == LineClass::DataRow
                ==> data_rows(lines).contains(i),
    decreases lines.len(),
{
    if lines.len() > 0 {
        let before = lines.drop_last();
        law_data_rows_lists_the_rows_in_order(before);
        let rows = data_rows(lines);
        assert forall|i: int|
            0 <= i < lines.len() && class_of(#[trigger] lines[i])
                == LineClass::DataRow implies rows.contains(i) by {
            if i < before.len() {
                assert(before[i] == lines[i]);
                assert(data_rows(before).contains(i));
                let k = choose|k: int| 0 <= k < data_rows(before).len() && data_rows(before)[k] == i;
                assert(rows[k] == i);
            } else {
                assert(rows[rows.len() - 1] == i);
            }
        }
    }
}

/// A scan that succeeds gives one sample for each data row and none besides, in the
/// order of the rows, each decoded by the layout in force before its line.
pub proof fn law_samples_follow_the_data_rows(lines: Seq<Seq<char>>)
    requires
        scan(lines) is Ok,
    ensures
        scan(lines)->Ok_0.len() == data_rows(lines).len(),
        forall|k: int|
            0 <= k < data_rows(lines).len() ==> row_sample(
                variant_after(lines.take(#[trigger] data_rows(lines)[k])),
                lines[data_rows(lines)[k]],
            ) == Ok::<PointView, ErrorKind>(scan(lines)->Ok_0[k]),
    decreases lines.len(),
{
    if lines.len() > 0 {
        let before = lines.drop_last();
        law_samples_follow_the_data_rows(before);
        law_data_rows_lists_the_rows_in_order(before);
        let rows = data_rows(lines);
        let samples = scan(lines)->Ok_0;
        assert forall|k: int| 0 <= k < rows.len() implies row_sample(
            variant_after(lines.take(#[trigger] rows[k])),
            lines[rows[k]],
        ) == Ok::<PointView, ErrorKind>(samples[k]) by {
            if k < data_rows(before).len() {
                let at = data_rows(before)[k];
                assert(rows[k] == at);
                assert(lines.take(at) =~= before.take(at));
                assert(lines[at] == before[at]);
                assert(samples[k] == scan(before)->Ok_0[k]);
            } else {
                assert(rows[k] == lines.len() - 1);
                assert(lines.take(lines.len() - 1) =~= before);
            }
        }
    }
}

/// Every sample of a scan that succeeds holds literals of the grammar and nothing else.
pub proof fn law_samples_are_well_formed(lines: Seq<Seq<char>>)
    requires
        scan(lines) is Ok,
    ensures
        forall|k: int|
            0 <= k < scan(lines)->Ok_0.len() ==> (#[trigger] scan(lines)->Ok_0[k]).well_formed(),
    decreases lines.len(),
{
    if lines.len() > 0 {
        law_samples_are_well_formed(lines.drop_last());
    }
}

/// A scan that fails names the first data row that cannot be decoded: the lines before
/// it scan without failure, and the row, decoded by the layout in force before it, gives
/// the kind of the failure.
pub proof fn law_failure_names_the_first_bad_row(lines: Seq<Seq<char>>)
    requires
        scan(lines) is Err,
    ensures
        ({
            let failure = scan(lines)->Err_0;
            let at = failure.line_number - 1;
            &&& 0 <= at < lines.len()
            &&& failure.line == lines[at]
            &&& class_of(lines[at]) == LineClass::DataRow
            &&& scan(lines.take(at)) is Ok
            &&& row_sample(variant_after(lines.take(at)), lines[at]) == Err::<PointView, ErrorKind>(
                failure.kind,
            )
        }),
    decreases lines.len(),
{
    let before = lines.drop_last();
    if scan(before) is Err {
        law_failure_names_the_first_bad_row(before);
        let at = scan(before)->Err_0.line_number - 1;
        assert(lines.take(at) =~= before.take(at));
    } else {
        assert(lines.take(lines.len() - 1) =~= before);
    }
}

/// Two results that `parse` may give for one text stand for the same samples, or for the
/// same failure.
pub proof fn law_parse_is_deterministic(
    text: Seq<char>,
    first: Result<Vec<Point>, ParseError>,
    second: Result<Vec<Point>, ParseError>,
)
    requires
        result_view(first) == scan(lines(text)),
        result_view(second) == scan(lines(text)),
    ensures
        result_view(first) == result_view(second),
{
}

} // verus!
