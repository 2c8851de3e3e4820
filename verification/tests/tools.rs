use squig::commands::download::requests::brands::{
    find_entry, Brand, I8OrString, Other, Phone, StringOrVec,
};
use squig::commands::download::requests::channels::{
    address, first_file, later_file, phone_book_address,
};
use squig::commands::download::{
    after_fetch, after_probe, first_sample, later_samples, ChannelStep,
};
use squig::commands::transform::point_index;
use squig::database::squig::{title_column_width, Squig};
use squig::logger::{init, render, Level, Logger};

fn text(s: &str) -> String {
    s.to_string()
}

fn phone(name: StringOrVec, other: Other, suffix: Option<StringOrVec>) -> Phone {
    Phone {
        aliexpress: None,
        amazon: None,
        file: StringOrVec::String(text("file")),
        name,
        other,
        preferred_shop: None,
        review_link: None,
        shop_link: None,
        suffix,
    }
}

fn nothing_else() -> Other {
    Other { price: None, review_score: None }
}

#[test]
fn the_logger_lets_info_and_graver_through() {
    let logger = init();
    assert_eq!(logger.max_level, Level::Info);
    assert!(logger.enabled(Level::Error));
    assert!(logger.enabled(Level::Warn));
    assert!(logger.enabled(Level::Info));
    assert!(!logger.enabled(Level::Debug));
    assert!(!logger.enabled(Level::Trace));
    assert_eq!(logger.log(Level::Debug, "hidden"), None);
    assert_eq!(logger.log(Level::Info, "shown"), Some(render(Level::Info, "shown")));
    logger.flush();
    let talkative = Logger { max_level: Level::Trace };
    assert!(talkative.enabled(Level::Trace));
    let quiet = Logger { max_level: Level::Error };
    assert!(!quiet.enabled(Level::Warn));
}

#[test]
fn a_record_is_drawn_as_a_frame() {
    assert_eq!(
        render(Level::Info, "one\ntwo"),
        "\x1b[0;34mINFO\u{2576}\u{256e}\n     \u{2502}one\n     \u{2502}two\n    \u{2576}\u{256f}\x1b[0m"
    );
    assert_eq!(
        render(Level::Error, ""),
        "\x1b[0;31mERROR\u{2576}\u{256e}\n      \u{2502}\n     \u{2576}\u{256f}\x1b[0m"
    );
    assert_eq!(
        render(Level::Warn, "\n"),
        "\x1b[0;33mWARN\u{2576}\u{256e}\n     \u{2502}\n     \u{2502}\n    \u{2576}\u{256f}\x1b[0m"
    );
    for level in [Level::Error, Level::Warn, Level::Info, Level::Debug, Level::Trace] {
        let indentation = " ".repeat(level.name().len());
        assert_eq!(level.indentation(), indentation);
        let message = "SELECT id\nFROM sites";
        let expected = format!(
            "{}{}\u{2576}\u{256e}\n{} \u{2502}{}\n{}\u{2576}\u{256f}{}",
            level.color(),
            level.name(),
            indentation,
            message.replace('\n', &format!("\n{} \u{2502}", indentation)),
            indentation,
            "\x1b[0m",
        );
        assert_eq!(render(level, message), expected);
    }
    assert_eq!(Level::Debug.color(), "\x1b[0;37m");
    assert_eq!(Level::Trace.color(), "\x1b[0;35m");
    assert_eq!(Level::Error.rank(), 1);
    assert_eq!(Level::Trace.rank(), 5);
}

#[test]
fn a_title_is_the_host_and_the_folder() {
    let squig = |folder: &str| Squig { folder: text(folder), site_id: 7, username: text("crin") };
    assert_eq!(squig("/").title(), "crin.squig.link");
    assert_eq!(squig("/iems/").title(), "crin.squig.link/iems");
    assert_eq!(squig("/iems").title(), "crin.squig.link/iems");
    assert_eq!(squig("/iems//").title(), "crin.squig.link/iems/");
    assert_eq!(squig("").title(), "crin.squig.link");
}

#[test]
fn files_and_addresses_are_named_by_the_site_convention() {
    assert_eq!(first_file("Duo", None), "Duo.txt");
    assert_eq!(first_file("Duo", Some("L")), "Duo L.txt");
    assert_eq!(first_file("Duo", Some("R")), "Duo R.txt");
    assert_eq!(later_file("Duo", "L", 1), "Duo L1.txt");
    assert_eq!(later_file("Duo", "R", 12), "Duo R12.txt");
    assert_eq!(
        address("crin", "/iems/", "Duo L.txt"),
        "https://crin.squig.link/iems/data/Duo L.txt"
    );
    assert_eq!(
        phone_book_address("crin", "/"),
        "https://crin.squig.link/data/phone_book.json"
    );
}

#[test]
fn the_walk_over_a_channel_probes_then_fetches() {
    assert_eq!(first_sample(), ChannelStep::Probe(0));
    assert_eq!(after_probe(0, true), ChannelStep::Done);
    assert_eq!(after_probe(0, false), ChannelStep::Fetch(0));
    assert_eq!(after_fetch(0, true), ChannelStep::Done);
    assert_eq!(after_fetch(0, false), ChannelStep::Done);

    assert_eq!(later_samples(), ChannelStep::Probe(1));
    assert_eq!(after_probe(1, true), ChannelStep::Probe(2));
    assert_eq!(after_probe(2, false), ChannelStep::Fetch(2));
    assert_eq!(after_fetch(2, true), ChannelStep::Fetch(3));
    assert_eq!(after_fetch(3, false), ChannelStep::Done);
    assert_eq!(after_probe(i64::MAX, true), ChannelStep::Done);
    assert_eq!(after_probe(i64::MAX, false), ChannelStep::Fetch(i64::MAX));
    assert_eq!(after_fetch(i64::MAX, true), ChannelStep::Done);

    // Samples 1 and 2 are stored, 3 and 4 can be had, 5 cannot.
    let mut step = later_samples();
    let mut fetched = Vec::new();
    loop {
        step = match step {
            ChannelStep::Probe(index) => after_probe(index, index <= 2),
            ChannelStep::Fetch(index) => {
                let there = index <= 4;
                if there {
                    fetched.push(index);
                }
                after_fetch(index, there)
            }
            ChannelStep::Done => break,
        };
    }
    assert_eq!(fetched, vec![3, 4]);
}

#[test]
fn a_phone_is_stored_under_its_first_name() {
    let one = phone(StringOrVec::String(text("Duo")), nothing_else(), None);
    assert_eq!(one.stored_name(), Some(text("Duo")));
    let several =
        phone(StringOrVec::Vec(vec![text("Duo"), text("Duo 2")]), nothing_else(), None);
    assert_eq!(several.stored_name(), Some(text("Duo")));
    let none = phone(StringOrVec::Vec(vec![]), nothing_else(), None);
    assert_eq!(none.stored_name(), None);
    let brand = Brand { name: text("Brand"), phones: vec![one, several, none] };
    assert_eq!(brand.phones.len(), 3);
}

#[test]
fn one_text_or_several_become_a_list() {
    assert_eq!(StringOrVec::String(text("a")).into_list(), vec![text("a")]);
    assert_eq!(StringOrVec::Vec(vec![text("a"), text("b")]).into_list(), vec![text("a"), text("b")]);
    assert_eq!(StringOrVec::Vec(vec![text("a"), text("b")]).to_list(), vec![text("a"), text("b")]);
    assert_eq!(StringOrVec::String(text("a")).to_list(), vec![text("a")]);
    assert_eq!(StringOrVec::Vec(vec![]).first(), None);
    let with = phone(
        StringOrVec::String(text("Duo")),
        nothing_else(),
        Some(StringOrVec::Vec(vec![text("(foam)"), text("(silicone)")])),
    );
    assert_eq!(with.suffixes(), vec![text("(foam)"), text("(silicone)")]);
    let single = phone(
        StringOrVec::String(text("Duo")),
        nothing_else(),
        Some(StringOrVec::String(text("(foam)"))),
    );
    assert_eq!(single.suffixes(), vec![text("(foam)")]);
    let without = phone(StringOrVec::String(text("Duo")), nothing_else(), None);
    assert_eq!(without.suffixes(), Vec::<String>::new());
}

#[test]
fn price_and_score_are_looked_up_by_name() {
    let other = Other {
        price: Some(vec![(text("price"), text("$59")), (text("reviewLink"), text("x"))]),
        review_score: Some(vec![
            (text("a"), I8OrString::String(text("n/a"))),
            (text("reviewScore"), I8OrString::I8(-7)),
        ]),
    };
    assert_eq!(other.price(), Some(text("$59")));
    assert_eq!(other.review_score(), Some(text("-7")));
    assert_eq!(find_entry(other.price.as_ref().unwrap(), "reviewLink"), Some(1));
    assert_eq!(find_entry(other.price.as_ref().unwrap(), "Price"), None);

    let other = Other {
        price: Some(vec![(text("reviewLink"), text("x"))]),
        review_score: Some(vec![(text("reviewScore"), I8OrString::String(text("A+")))]),
    };
    assert_eq!(other.price(), None);
    assert_eq!(other.review_score(), Some(text("A+")));
    assert_eq!(nothing_else().price(), None);
    assert_eq!(nothing_else().review_score(), None);
    assert_eq!(I8OrString::I8(127).to_text(), "127");
    assert_eq!(I8OrString::I8(-128).to_text(), "-128");
    assert_eq!(I8OrString::I8(0).to_text(), "0");
}

#[test]
fn a_position_is_an_index_while_it_fits() {
    assert_eq!(point_index(0), Some(0));
    assert_eq!(point_index(479), Some(479));
    assert_eq!(point_index(i32::MAX as usize), Some(i32::MAX));
    assert_eq!(point_index(i32::MAX as usize + 1), None);
    assert_eq!(point_index(usize::MAX), None);
}

#[test]
fn the_title_column_is_as_wide_as_the_widest_title() {
    let squig = |username: &str, folder: &str| Squig {
        folder: text(folder),
        site_id: 1,
        username: text(username),
    };
    assert_eq!(title_column_width(&vec![]), 5);
    assert_eq!(title_column_width(&vec![squig("a", "/")]), 12);
    assert_eq!(
        title_column_width(&vec![squig("a", "/"), squig("crin", "/iems/"), squig("b", "/x/")]),
        20
    );
    // Widths are counted in bytes, as the terminal's column is.
    assert_eq!(title_column_width(&vec![squig("\u{e9}", "")]), 13);
}
