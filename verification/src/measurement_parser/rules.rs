//! The two ordered tables by which a line is classified: the banner lines that select a
//! layout, and the lines that carry no data.

use crate::measurement_parser::variant::FormatVariant;
use crate::text::{equals, starts_with};
use vstd::prelude::*;

verus! {

/// How a rule's text is held against a line.
#[derive(Clone, Copy, PartialEq, Eq, Debug, Structural)]
pub enum Matcher {
    /// The line is the text.
    Exact,
    /// The line begins with the text.
    Prefix,
}

/// A rule as the contracts see it.
pub struct Pattern {
    pub matcher: Matcher,
    pub text: Seq<char>,
}

/// A rule of one of the tables.
#[derive(Clone, Copy, Debug)]
pub struct Rule {
    pub matcher: Matcher,
    pub text: &'static str,
}

impl View for Rule {
    type V = Pattern;

    open spec fn view(&self) -> Pattern {
        Pattern { matcher: self.matcher, text: self.text@ }
    }
}

/// A banner rule: a line that meets `rule` selects the layout `target`.
#[derive(Clone, Copy, Debug)]
pub struct Sentinel {
    pub rule: Rule,
    pub target: FormatVariant,
}

impl View for Sentinel {
    type V = (Pattern, FormatVariant);

    open spec fn view(&self) -> (Pattern, FormatVariant) {
        (self.rule@, self.target)
    }
}

/// What a line is to the scan.
#[derive(Clone, Copy, PartialEq, Eq, Debug, Structural)]
pub enum LineClass {
    /// A banner: the scan moves to the layout and the line gives no sample.
    Sentinel(FormatVariant),
    /// A line without data: it is passed over.
    Ignorable,
    /// A row of columns, to be decoded by the layout in force.
    DataRow,
}

/// `line` meets `pattern`.
pub open spec fn pattern_matches(pattern: Pattern, line: Seq<char>) -> bool {
    match pattern.matcher {
        Matcher::Exact => line == pattern.text,
        Matcher::Prefix => pattern.text.is_prefix_of(line),
    }
}

/// The banner lines and the layouts they select, in the order in which they are tried.
pub open spec fn sentinel_table() -> Seq<(Pattern, FormatVariant)> {
    seq![
        (
            Pattern { matcher: Matcher::Exact, text: "* +info = www.achoreviews.com/solospec"@ },
            FormatVariant::AchoReviews,
        ),
        (
            Pattern { matcher: Matcher::Exact, text: "+info = www.achoreviews.com"@ },
            FormatVariant::AchoReviews,
        ),
        (
            Pattern { matcher: Matcher::Exact, text: "Comment: TJ Comment\t"@ },
            FormatVariant::Comment,
        ),
        (
            Pattern { matcher: Matcher::Prefix, text: "FFT\tAudioTools"@ },
            FormatVariant::FftAudioTools,
        ),
        (
            Pattern { matcher: Matcher::Exact, text: "Frequency(Hz)\t   Magnitude(dB)"@ },
            FormatVariant::FrequencyMagnitude,
        ),
        (
            Pattern { matcher: Matcher::Exact, text: "Freq[Hz]     dBSPL  Phase[Deg]"@ },
            FormatVariant::FrequencySplPhase,
        ),
        (
            Pattern { matcher: Matcher::Exact, text: "Freq[Hz]\tdBSPL\tPhase[Deg]"@ },
            FormatVariant::FrequencySplPhase,
        ),
        (
            Pattern { matcher: Matcher::Prefix, text: "* Measurement data measured by REW V5"@ },
            FormatVariant::RewV5,
        ),
        (Pattern { matcher: Matcher::Exact, text: "x\tCurve1"@ }, FormatVariant::XCurve1),
        (Pattern { matcher: Matcher::Exact, text: "x\tLEFT"@ }, FormatVariant::XLeft),
        (Pattern { matcher: Matcher::Exact, text: "x\tRIGHT"@ }, FormatVariant::XRight),
    ]
}

/// The lines that carry no data, whatever the layout in force.
pub open spec fn ignorable_table() -> Seq<Pattern> {
    seq![
        Pattern { matcher: Matcher::Exact, text: "Comment: TJ Comment"@ },
        Pattern { matcher: Matcher::Exact, text: "Frequency\tdB\tUnweighted"@ },
        Pattern { matcher: Matcher::Exact, text: "Senny IE600 L.txt"@ },
        Pattern { matcher: Matcher::Exact, text: "Senny IE600 R.txt"@ },
        Pattern { matcher: Matcher::Exact, text: ""@ },
        Pattern { matcher: Matcher::Prefix, text: "*"@ },
        Pattern { matcher: Matcher::Prefix, text: "averaging"@ },
        Pattern { matcher: Matcher::Prefix, text: "decay"@ },
        Pattern { matcher: Matcher::Prefix, text: "latitude"@ },
        Pattern { matcher: Matcher::Prefix, text: "longitude"@ },
        Pattern { matcher: Matcher::Prefix, text: "overall"@ },
        Pattern { matcher: Matcher::Prefix, text: "peak"@ },
        Pattern { matcher: Matcher::Prefix, text: "saved"@ },
        Pattern { matcher: Matcher::Prefix, text: "source"@ },
    ]
}

/// The target of the first rule of `table` that `line` meets.
pub open spec fn first_match(table: Seq<(Pattern, FormatVariant)>, line: Seq<char>) -> Option<
    FormatVariant,
>
    decreases table.len(),
{
    if table.len() == 0 {
        None
    } else if pattern_matches(table[0].0, line) {
        Some(table[0].1)
    } else {
        first_match(table.drop_first(), line)
    }
}

/// The layout that `line` selects, if it is a banner.
pub open spec fn sentinel_target(line: Seq<char>) -> Option<FormatVariant> {
    first_match(sentinel_table(), line)
}

/// `line` meets a rule of the table of lines without data.
pub open spec fn is_ignorable(line: Seq<char>) -> bool {
    exists|i: int|
        0 <= i < ignorable_table().len() && pattern_matches(#[trigger] ignorable_table()[i], line)
}

/// The class of `line`. A banner is a banner even where it also meets a rule of the
/// table of lines without data.
pub open spec fn class_of(line: Seq<char>) -> LineClass {
    match sentinel_target(line) {
        Some(target) => LineClass::Sentinel(target),
        None => if is_ignorable(line) {
            LineClass::Ignorable
        } else {
            LineClass::DataRow
        },
    }
}

/// Holds `line` against `rule`.
pub fn rule_matches(rule: &Rule, line: &[char]) -> (hit: bool)
    ensures
        hit == pattern_matches(rule@, line@),
{
    match rule.matcher {
        Matcher::Exact => equals(line, rule.text),
        Matcher::Prefix => starts_with(line, rule.text),
    }
}

/// The table of banner rules.
pub fn sentinels() -> (table: [Sentinel; 11])
    ensures
        table@.map_values(|s: Sentinel| s@) == sentinel_table(),
{
    let exact = Matcher::Exact;
    let prefix = Matcher::Prefix;
    let table = [
        Sentinel {
            rule: Rule { matcher: exact, text: "* +info = www.achoreviews.com/solospec" },
            target: FormatVariant::AchoReviews,
        },
        Sentinel {
            rule: Rule { matcher: exact, text: "+info = www.achoreviews.com" },
            target: FormatVariant::AchoReviews,
        },
        Sentinel {
            rule: Rule { matcher: exact, text: "Comment: TJ Comment\t" },
            target: FormatVariant::Comment,
        },
        Sentinel {
            rule: Rule { matcher: prefix, text: "FFT\tAudioTools" },
            target: FormatVariant::FftAudioTools,
        },
        Sentinel {
            rule: Rule { matcher: exact, text: "Frequency(Hz)\t   Magnitude(dB)" },
            target: FormatVariant::FrequencyMagnitude,
        },
        Sentinel {
            rule: Rule { matcher: exact, text: "Freq[Hz]     dBSPL  Phase[Deg]" },
            target: FormatVariant::FrequencySplPhase,
        },
        Sentinel {
            rule: Rule { matcher: exact, text: "Freq[Hz]\tdBSPL\tPhase[Deg]" },
            target: FormatVariant::FrequencySplPhase,
        },
        Sentinel {
            rule: Rule { matcher: prefix, text: "* Measurement data measured by REW V5" },
            target: FormatVariant::RewV5,
        },
        Sentinel {
            rule: Rule { matcher: exact, text: "x\tCurve1" },
            target: FormatVariant::XCurve1,
        },
        Sentinel { rule: Rule { matcher: exact, text: "x\tLEFT" }, target: FormatVariant::XLeft },
        Sentinel {
            rule: Rule { matcher: exact, text: "x\tRIGHT" },
            target: FormatVariant::XRight,
        },
    ];
    assert(table@.map_values(|s: Sentinel| s@) =~= sentinel_table());
    table
}

/// The table of rules for lines without data.
pub fn ignorables() -> (table: [Rule; 14])
    ensures
        table@.map_values(|r: Rule| r@) == ignorable_table(),
{
    let exact = Matcher::Exact;
    let prefix = Matcher::Prefix;
    let table = [
        Rule { matcher: exact, text: "Comment: TJ Comment" },
        Rule { matcher: exact, text: "Frequency\tdB\tUnweighted" },
        Rule { matcher: exact, text: "Senny IE600 L.txt" },
        Rule { matcher: exact, text: "Senny IE600 R.txt" },
        Rule { matcher: exact, text: "" },
        Rule { matcher: prefix, text: "*" },
        Rule { matcher: prefix, text: "averaging" },
        Rule { matcher: prefix, text: "decay" },
        Rule { matcher: prefix, text: "latitude" },
        Rule { matcher: prefix, text: "longitude" },
        Rule { matcher: prefix, text: "overall" },
        Rule { matcher: prefix, text: "peak" },
        Rule { matcher: prefix, text: "saved" },
        Rule { matcher: prefix, text: "source" },
    ];
    assert(table@.map_values(|r: Rule| r@) =~= ignorable_table());
    table
}

/// Looks `line` up in the table of banner rules.
pub fn find_sentinel(line: &[char]) -> (target: Option<FormatVariant>)
    ensures
        target == sentinel_target(line@),
{
    let table = sentinels();
    let ghost model = sentinel_table();
    let mut i: usize = 0;
    assert(model.skip(0) =~= model);
    while i < table.len()
        invariant
            i <= table.len(),
            table@.map_values(|s: Sentinel| s@) == model,
            model == sentinel_table(),
            first_match(model, line@) == first_match(model.skip(i as int), line@),
        decreases table.len() - i,
    {
        assert(model.skip(i as int)[0] == table@[i as int]@);
        assert(model.skip(i as int).drop_first() =~= model.skip(i + 1));
        if rule_matches(&table[i].rule, line) {
            return Some(table[i].target);
        }
        i += 1;
    }
    None
}

/// Looks `line` up in the table of rules for lines without data.
pub fn line_is_ignorable(line: &[char]) -> (hit: bool)
    ensures
        hit == is_ignorable(line@),
{
    let table = ignorables();
    let mut i: usize = 0;
    while i < table.len()
        invariant
            i <= table.len(),
            table@.map_values(|r: Rule| r@) == ignorable_table(),
            forall|j: int| 0 <= j < i ==> !pattern_matches(#[trigger] ignorable_table()[j], line@),
        decreases table.len() - i,
    {
        assert(ignorable_table()[i as int] == table@[i as int]@);
        if rule_matches(&table[i], line) {
            return true;
        }
        i += 1;
    }
    false
}

/// Classifies `line`: the banner rules are tried first, then the rules for lines
/// without data; what meets neither is a data row.
pub fn classify(line: &[char]) -> (class: LineClass)
    ensures
        class == class_of(line@),
{
    match find_sentinel(line) {
        Some(target) => LineClass::Sentinel(target),
        None => if line_is_ignorable(line) {
            LineClass::Ignorable
        } else {
            LineClass::DataRow
        },
    }
}

} // verus!
