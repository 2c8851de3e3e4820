use squig::measurement_parser::{parse, ErrorKind, ParseError, Point};

fn numbers(points: &[Point]) -> Vec<(f64, Option<f64>, f64)> {
    points
        .iter()
        .map(|point| {
            (
                point.frequency_hz.parse::<f64>().unwrap(),
                point.phase_degrees.as_ref().map(|phase| phase.parse::<f64>().unwrap()),
                point.spl_db.parse::<f64>().unwrap(),
            )
        })
        .collect()
}

fn point(frequency_hz: &str, phase_degrees: Option<&str>, spl_db: &str) -> Point {
    Point {
        frequency_hz: frequency_hz.to_string(),
        phase_degrees: phase_degrees.map(|phase| phase.to_string()),
        spl_db: spl_db.to_string(),
    }
}

fn failure(kind: ErrorKind, line_number: usize, line: &str) -> ParseError {
    ParseError { kind, line_number, line: line.to_string() }
}

#[test]
fn it_parses_acho_reviews() {
    let result = parse(
        "* +info = www.achoreviews.com/solospec\n\
         *\n\
         * Freq(Hz)\tSPL(dB)\tPhase(degrees)\n\
         20.000000\t63.772\t109.1282\n\
         20.299999\t63.378\t108.6914\n",
    )
    .unwrap();

    assert_eq!(
        numbers(&result),
        vec![(20.000000, Some(109.1282), 63.772), (20.299999, Some(108.6914), 63.378)]
    );
}

#[test]
fn it_parses_malformed_acho_reviews() {
    let result = parse(
        "+info = www.achoreviews.com\n\
         *\n\
         * Freq(Hz)\tSPL(dB)\tPhase(degrees)\n\
         20.299999\t99.796\t-151.2608\n\
         20.600000\t99.811\t-151.7908\n",
    )
    .unwrap();

    assert_eq!(
        numbers(&result),
        vec![(20.299999, Some(-151.2608), 99.796), (20.600000, Some(-151.7908), 99.811)]
    );
}

#[test]
fn it_parses_fft_audio_tools() {
    let result = parse(
        "FFT\tAudioTools \tv14.8.6 iPad battery  77%\t2021/05/12 11:16\tHeadset Mic 3 Low Range\tEB05A3E2-10AC-49FE-A287-06AC06EBE5AD\n\
         Frequency\tdB\tUnweighted\n\
         19.5\t70.9\n\
         19.8\t71\n\
         overall dB\t96.8 dB\n\
         decay\tAverage\n\
         averaging\t1/12 Octave\n\
         source\tHeadset Mic 3 Low Range\n\
         latitude\t0\n\
         longitude\t0\n\
         saved\t2021/05/12 11:16\n\
         peak\t16.1Hz\n",
    )
    .unwrap();

    assert_eq!(numbers(&result), vec![(19.5, None, 70.9), (19.8, None, 71.0)]);
}

#[test]
fn it_parses_frequency_magnitude() {
    let result = parse(
        "Frequency(Hz)\t   Magnitude(dB)\n\
         1.475\t113.006454\n\
         1.498\t113.051888\n",
    )
    .unwrap();

    assert_eq!(numbers(&result), vec![(1.475, None, 113.006454), (1.498, None, 113.051888)]);
}

#[test]
fn it_parses_frequency_spl_phase_with_spaces() {
    let result = parse(
        "Freq[Hz]     dBSPL  Phase[Deg]\n\
         5.00000    123.785    -5.731\n\
         5.07273    123.783    -5.741\n",
    )
    .unwrap();

    assert_eq!(
        numbers(&result),
        vec![(5.00000, Some(-5.731), 123.785), (5.07273, Some(-5.741), 123.783)]
    );
}

#[test]
fn it_parses_frequency_spl_phase_with_tabs() {
    let result = parse(
        "Freq[Hz]\tdBSPL\tPhase[Deg]\n\
         5.00000\t106.340\t-147.475\n\
         5.07273\t106.324\t-147.610\n",
    )
    .unwrap();

    assert_eq!(
        numbers(&result),
        vec![(5.00000, Some(-147.475), 106.340), (5.07273, Some(-147.610), 106.324)]
    );
}

#[test]
fn it_parses_rew_v5_with_degrees() {
    let result = parse(
        "* Measurement data measured by REW V5.20.3\n\
         * Source: USB-C to 3.5mm Headphone Jack Adapter, USB-C to 3.5mm Headphone Jack Adapter, 0, volume: 0.138. Timing signal peak level -19.8 dBFS, measurement signal peak level -19.3 dBFS\n\
         * Format: 256k Log Swept Sine, 1 sweep at -12.0 dBFS using an acoustic timing reference\n\
         * Dated: Jul 10, 2023 9:36:37 PM\n\
         * REW Settings:\n\
         *  C-weighting compensation: Off\n\
         *  Target level: 75.0 dB\n\
         * Note: Delay -0.1027 ms (-35 mm, -1.39 in) using estimated IR delay relative to Acoustic reference on USB-C to 3.5mm Headphone Jack Adapter L with no timing offset\n\
         * Measurement: Duo L Jul 10\n\
         * Smoothing: 1/12 octave\n\
         * Frequency Step: 1/48 octave\n\
         * Start Frequency: 20.000 Hz\n\
         *\n\
         * Freq(Hz)\tSPL(dB)\tPhase(degrees)\n\
         20.000000\t96.774\t36.7401\n\
         20.299999\t96.813\t36.0714\n",
    )
    .unwrap();

    assert_eq!(
        numbers(&result),
        vec![(20.000000, Some(36.7401), 96.774), (20.299999, Some(36.0714), 96.813)]
    );
}

#[test]
fn it_parses_rew_v5_without_degrees() {
    let result = parse(
        "* Measurement data measured by REW V5.20.13\n\
         * Source: USB-C to 3.5mm Headphone Jack Adapter, USB-C to 3.5mm Headphone Jack Adapter, 0, volume: 0.510\n\
         * Format: 256k Log Swept Sine, 1 sweep at -12.0 dBFS with no timing reference\n\
         * Dated: 21 Jan, 2024 4:18:19 PM\n\
         * REW Settings:\n\
         *  C-weighting compensation: Off\n\
         *  Target level: 75.0 dB\n\
         * Note: ;\n\
         * Measurement: PMG Audio APX L\n\
         * Smoothing: None\n\
         * Frequency Step: 1/48 octave\n\
         * Start Frequency: 20.000 Hz\n\
         *\n\
         * Freq(Hz)\tSPL(dB)\n\
         20.000000\t68.017\n\
         20.299999\t68.027\n",
    )
    .unwrap();

    assert_eq!(numbers(&result), vec![(20.000000, None, 68.017), (20.299999, None, 68.027)]);
}

#[test]
fn it_parses_x_curve1() {
    let result = parse(
        "x\tCurve1\n\
         20.0421\t38.3025\n\
         20.331\t38.3396\n",
    )
    .unwrap();

    assert_eq!(numbers(&result), vec![(20.0421, None, 38.3025), (20.331, None, 38.3396)]);
}

#[test]
fn it_parses_x_left() {
    let result = parse(
        "x\tLEFT\n\
         20.0527\t37.4904\n\
         20.3383\t37.5329\n",
    )
    .unwrap();

    assert_eq!(numbers(&result), vec![(20.0527, None, 37.4904), (20.3383, None, 37.5329)]);
}

#[test]
fn it_parses_x_right() {
    let result = parse(
        "x\tRIGHT\n\
         20.0522\t36.256\n\
         20.3412\t36.3084\n",
    )
    .unwrap();

    assert_eq!(numbers(&result), vec![(20.0522, None, 36.256), (20.3412, None, 36.3084)]);
}

#[test]
fn acho_reviews_row_keeps_its_three_literals() {
    let result = parse("* +info = www.achoreviews.com/solospec\n20.000000\t63.772\t109.1282").unwrap();
    assert_eq!(result, vec![point("20.000000", Some("109.1282"), "63.772")]);
    assert_eq!(numbers(&result), vec![(20.0, Some(109.1282), 63.772)]);
}

#[test]
fn fft_audio_tools_has_no_phase_and_skips_its_footer() {
    let result = parse("FFT\tAudioTools 1\n19.5\t70.9\noverall dB\t96.8 dB\npeak\t16.1Hz\n").unwrap();
    assert_eq!(result, vec![point("19.5", None, "70.9")]);
    assert_eq!(numbers(&result), vec![(19.5, None, 70.9)]);
}

#[test]
fn fft_audio_tools_never_reads_a_third_column() {
    let result = parse("FFT\tAudioTools\n19.5\t70.9\t12.5\n").unwrap();
    assert_eq!(result, vec![point("19.5", None, "70.9")]);
}

#[test]
fn rew_v5_row_of_two_columns_has_no_phase() {
    let result = parse("* Measurement data measured by REW V5\n20.000000\t68.017\n").unwrap();
    assert_eq!(result, vec![point("20.000000", None, "68.017")]);
    assert_eq!(numbers(&result), vec![(20.0, None, 68.017)]);
}

#[test]
fn rew_v5_prefers_comma_then_semicolon_then_tab_then_space() {
    let banner = "* Measurement data measured by REW V5.20\n";
    assert_eq!(
        parse(&format!("{banner}20.0, 68.0, 1.5\n")).unwrap(),
        vec![point("20.0", Some("1.5"), "68.0")]
    );
    assert_eq!(
        parse(&format!("{banner}20.0; 68.0; 1.5\n")).unwrap(),
        vec![point("20.0", Some("1.5"), "68.0")]
    );
    assert_eq!(
        parse(&format!("{banner}20.0\t68.0\t1.5\n")).unwrap(),
        vec![point("20.0", Some("1.5"), "68.0")]
    );
    assert_eq!(
        parse(&format!("{banner}20.0 68.0 1.5\n")).unwrap(),
        vec![point("20.0", Some("1.5"), "68.0")]
    );
    // A comma with a space wins over a tab that the row holds too.
    assert_eq!(
        parse(&format!("{banner}20.0, 68.0\t, 1.5\n")).unwrap(),
        vec![point("20.0", Some("1.5"), "68.0")]
    );
    // A bare comma is no separator of this layout: the row is cut at its spaces.
    assert_eq!(
        parse(&format!("{banner}20.0,68.0 1.5\n")),
        Err(failure(ErrorKind::NumericParseError, 2, "20.0,68.0 1.5"))
    );
}

#[test]
fn unknown_layout_prefers_comma_then_tab_then_space() {
    assert_eq!(parse("20.0,68.0,1.5").unwrap(), vec![point("20.0", Some("1.5"), "68.0")]);
    assert_eq!(parse("20.0, 68.0, 1.5").unwrap(), vec![point("20.0", Some("1.5"), "68.0")]);
    assert_eq!(parse("20.0\t68.0\t1.5").unwrap(), vec![point("20.0", Some("1.5"), "68.0")]);
    assert_eq!(parse("20.0 68.0 1.5").unwrap(), vec![point("20.0", Some("1.5"), "68.0")]);
    assert_eq!(parse("20.0 68.0").unwrap(), vec![point("20.0", None, "68.0")]);
    assert_eq!(parse("20.0\t68.0 7,1.5").unwrap_err().kind, ErrorKind::NumericParseError);
}

#[test]
fn frequency_spl_phase_drops_empty_pieces_before_counting() {
    let banner = "Freq[Hz]     dBSPL  Phase[Deg]\n";
    assert_eq!(
        parse(&format!("{banner}  5.0   123.7     -5.7  \n")).unwrap(),
        vec![point("5.0", Some("-5.7"), "123.7")]
    );
    // With a tab in the row the row is cut at tabs alone.
    assert_eq!(
        parse(&format!("{banner}5.0\t\t 123.7 \t-5.7\n")).unwrap(),
        vec![point("5.0", Some("-5.7"), "123.7")]
    );
    // A piece of white space is not empty: it stays, and is no number.
    assert_eq!(
        parse(&format!("{banner}5.0\t \t123.7\n")),
        Err(failure(ErrorKind::NumericParseError, 2, "5.0\t \t123.7"))
    );
    // A row of spaces alone has no column at all.
    assert_eq!(
        parse(&format!("{banner}   \n")),
        Err(failure(ErrorKind::MissingColumnError, 2, "   "))
    );
}

#[test]
fn other_layouts_keep_empty_pieces() {
    assert_eq!(
        parse("x\tCurve1\n20.0\t\t38.3\n"),
        Err(failure(ErrorKind::NumericParseError, 2, "20.0\t\t38.3"))
    );
}

#[test]
fn a_frequency_that_is_no_number_fails_the_whole_text() {
    let result = parse(
        "* +info = www.achoreviews.com/solospec\n\
         20.000000\t63.772\t109.1282\n\
         abc\t63.772\t109.1282\n\
         20.299999\t63.378\t108.6914\n",
    );
    assert_eq!(result, Err(failure(ErrorKind::NumericParseError, 3, "abc\t63.772\t109.1282")));
}

#[test]
fn a_level_that_is_no_number_fails_the_whole_text() {
    let result = parse("x\tLEFT\n20.0\t37.4\n20.3\tloud\n");
    assert_eq!(result, Err(failure(ErrorKind::NumericParseError, 3, "20.3\tloud")));
}

#[test]
fn a_row_of_one_column_is_a_missing_column() {
    assert_eq!(
        parse("x\tRIGHT\n20.0522\n"),
        Err(failure(ErrorKind::MissingColumnError, 2, "20.0522"))
    );
    assert_eq!(
        parse("+info = www.achoreviews.com\n\n20.0\n"),
        Err(failure(ErrorKind::MissingColumnError, 3, "20.0"))
    );
    // The count is taken before any column is read as a number.
    assert_eq!(parse("abc"), Err(failure(ErrorKind::MissingColumnError, 1, "abc")));
}

#[test]
fn the_first_bad_row_is_the_one_reported() {
    let result = parse("1 2\nx\nzz 1\n");
    assert_eq!(result, Err(failure(ErrorKind::MissingColumnError, 2, "x")));
}

#[test]
fn a_phase_that_is_no_number_is_absent() {
    assert_eq!(
        parse("+info = www.achoreviews.com\n20.0\t63.7\tn/a\n").unwrap(),
        vec![point("20.0", None, "63.7")]
    );
    assert_eq!(
        parse("+info = www.achoreviews.com\n20.0\t63.7\n").unwrap(),
        vec![point("20.0", None, "63.7")]
    );
    assert_eq!(parse("20.0 63.7 -").unwrap(), vec![point("20.0", None, "63.7")]);
}

#[test]
fn columns_are_trimmed() {
    assert_eq!(
        parse("x\tCurve1\n 20.0 \t\u{a0}38.3\u{3000}\t\n").unwrap(),
        vec![point("20.0", None, "38.3")]
    );
}

#[test]
fn a_banner_changes_the_layout_in_the_middle_of_a_text() {
    let result = parse("1,2,3\nx\tCurve1\n4\t5\t6\n+info = www.achoreviews.com\n7\t8\t9\n").unwrap();
    assert_eq!(
        result,
        vec![point("1", Some("3"), "2"), point("4", None, "5"), point("7", Some("9"), "8")]
    );
}

#[test]
fn a_banner_must_match_to_the_letter() {
    // One space short of the banner: a data row of the unknown layout, and no number.
    assert_eq!(parse("x\tCurve1 \n1\t2\n").unwrap_err().line_number, 1);
    assert_eq!(
        parse("Comment: TJ Comment\t\n1\t2\t3\n").unwrap(),
        vec![point("1", None, "2")]
    );
    // Without its tab the line is one without data, and selects nothing.
    assert_eq!(
        parse("Comment: TJ Comment\n1\t2\t3\n").unwrap(),
        vec![point("1", Some("3"), "2")]
    );
}

#[test]
fn lines_without_data_give_nothing() {
    let text = "\n*\n* anything\nComment: TJ Comment\nFrequency\tdB\tUnweighted\n\
                Senny IE600 L.txt\nSenny IE600 R.txt\naveraging 1\ndecay 2\nlatitude 3\n\
                longitude 4\noverall 5\npeak 6\nsaved 7\nsource 8\n";
    assert_eq!(parse(text).unwrap(), vec![]);
    assert_eq!(parse("").unwrap(), vec![]);
}

#[test]
fn samples_come_in_the_order_of_their_rows() {
    let mut text = String::new();
    for i in 0..500 {
        text.push_str(&format!("{i}\t{}\n*\n", i + 1));
    }
    let result = parse(&text).unwrap();
    assert_eq!(result.len(), 500);
    for (i, sample) in result.iter().enumerate() {
        assert_eq!(sample.frequency_hz, i.to_string());
        assert_eq!(sample.spl_db, (i + 1).to_string());
    }
}

#[test]
fn parsing_twice_gives_the_same() {
    let good = "x\tLEFT\n1\t2\n3\t4\n";
    assert_eq!(parse(good), parse(good));
    let bad = "x\tLEFT\n1\t2\n3\n";
    assert_eq!(parse(bad), parse(bad));
}

#[test]
fn line_ends_may_carry_a_carriage_return() {
    assert_eq!(
        parse("x\tCurve1\r\n1\t2\r\n3\t4").unwrap(),
        vec![point("1", None, "2"), point("3", None, "4")]
    );
    assert_eq!(parse("\r\n\r\n").unwrap(), vec![]);
    assert_eq!(
        parse("1 2\n\n3\r\n"),
        Err(failure(ErrorKind::MissingColumnError, 3, "3"))
    );
}

#[test]
fn special_literals_are_numbers() {
    let result = parse("inf -Infinity NaN").unwrap();
    assert_eq!(result, vec![point("inf", Some("NaN"), "-Infinity")]);
    let values = numbers(&result);
    assert_eq!(values[0].0, f64::INFINITY);
    assert_eq!(values[0].2, f64::NEG_INFINITY);
    assert!(values[0].1.unwrap().is_nan());
}
