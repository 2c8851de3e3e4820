//! A database's list of brands and phones, and what the tool stores of each phone.
//!
//! The list comes as loosely typed records: a field may hold one text or several, a
//! score may be a number or a text, and the price and the score stand among a record's
//! remaining fields, held here as entries of name and value with no name twice.

use crate::text::{decimal, decimal_string, same_text, string_views};
use vstd::prelude::*;

verus! {

/// A brand and its phones.
#[derive(Clone, Debug)]
pub struct Brand {
    pub name: String,
    pub phones: Vec<Phone>,
}

/// A phone as the list gives it.
#[derive(Clone, Debug)]
pub struct Phone {
    pub aliexpress: Option<String>,
    pub amazon: Option<String>,
    pub file: StringOrVec,
    pub name: StringOrVec,
    pub other: Other,
    pub preferred_shop: Option<String>,
    pub review_link: Option<String>,
    pub shop_link: Option<String>,
    pub suffix: Option<StringOrVec>,
}

/// The remaining fields of a phone's record, read twice: once as texts, once as scores.
/// Either reading is absent where a field does not fit it.
#[derive(Clone, Debug)]
pub struct Other {
    pub price: Option<Vec<(String, String)>>,
    pub review_score: Option<Vec<(String, I8OrString)>>,
}

/// One text, or several.
#[derive(Clone, Debug)]
pub enum StringOrVec {
    String(String),
    Vec(Vec<String>),
}

/// A small number, or a text.
#[derive(Clone, Debug)]
pub enum I8OrString {
    I8(i8),
    String(String),
}

/// The place of the first entry named `name` among `entries`, from `from` on.
pub open spec fn entry_index<V>(entries: Seq<(String, V)>, name: Seq<char>, from: int) -> Option<
    int,
>
    decreases entries.len() - from,
{
    if from < 0 || from >= entries.len() {
        None
    } else if entries[from].0@ == name {
        Some(from)
    } else {
        entry_index(entries, name, from + 1)
    }
}

/// No name stands twice among `entries`.
pub open spec fn names_distinct<V>(entries: Seq<(String, V)>) -> bool {
    forall|i: int, j: int|
        0 <= i < j < entries.len() ==> (#[trigger] entries[i]).0@ != (#[trigger] entries[j]).0@
}

/// A search from `from` on finds an entry of that name where there is one, and the only
/// one where no name stands twice.
pub proof fn lemma_entry_index<V>(entries: Seq<(String, V)>, name: Seq<char>, from: int)
    requires
        0 <= from,
    ensures
        match entry_index(entries, name, from) {
            Some(at) => from <= at < entries.len() && entries[at].0@ == name,
            None => forall|i: int| from <= i < entries.len() ==> (#[trigger] entries[i]).0@ != name,
        },
        names_distinct(entries) ==> forall|i: int|
            from <= i < entries.len() && (#[trigger] entries[i]).0@ == name ==> entry_index(
                entries,
                name,
                from,
            ) == Some(i),
    decreases entries.len() - from,
{
    if from < entries.len() {
        lemma_entry_index(entries, name, from + 1);
    }
}

/// Looks for the first entry named `name`.
pub fn find_entry<V>(entries: &Vec<(String, V)>, name: &str) -> (at: Option<usize>)
    ensures
        match at {
            Some(at) => entry_index(entries@, name@, 0) == Some(at as int) && at < entries.len(),
            None => entry_index(entries@, name@, 0) is None,
        },
{
    let mut i: usize = 0;
    while i < entries.len()
        invariant
            i <= entries.len(),
            entry_index(entries@, name@, 0) == entry_index(entries@, name@, i as int),
        decreases entries.len() - i,
    {
        if same_text(entries[i].0.as_str(), name) {
            return Some(i);
        }
        i += 1;
    }
    None
}

impl StringOrVec {
    /// The texts, in their order.
    pub open spec fn texts(self) -> Seq<Seq<char>> {
        match self {
            StringOrVec::String(text) => seq![text@],
            StringOrVec::Vec(texts) => string_views(texts@),
        }
    }

    /// Hands the texts out as a list.
    pub fn into_list(self) -> (list: Vec<String>)
        ensures
            string_views(list@) == self.texts(),
    {
        match self {
            StringOrVec::String(text) => {
                let list = vec![text];
                assert(string_views(list@) =~= seq![text@]);
                list
            },
            StringOrVec::Vec(texts) => texts,
        }
    }

    /// Copies the texts into a list.
    pub fn to_list(&self) -> (list: Vec<String>)
        ensures
            string_views(list@) == self.texts(),
    {
        match self {
            StringOrVec::String(text) => {
                let list = vec![text.clone()];
                assert(string_views(list@) =~= seq![text@]);
                list
            },
            StringOrVec::Vec(texts) => {
                let mut list: Vec<String> = Vec::new();
                let mut i: usize = 0;
                while i < texts.len()
                    invariant
                        i <= texts.len(),
                        string_views(list@) =~= string_views(texts@).take(i as int),
                    decreases texts.len() - i,
                {
                    let ghost before = string_views(list@);
                    let text = texts[i].clone();
                    list.push(text);
                    assert(string_views(list@) =~= before.push(texts@[i as int]@));
                    i += 1;
                }
                assert(string_views(texts@).take(texts.len() as int) =~= string_views(texts@));
                list
            },
        }
    }

    /// The first of the texts, where there is one.
    pub fn first(&self) -> (first: Option<String>)
        ensures
            match first {
                Some(first) => self.texts().len() > 0 && first@ == self.texts()[0],
                None => self.texts().len() == 0,
            },
    {
        match self {
            StringOrVec::String(text) => Some(text.clone()),
            StringOrVec::Vec(texts) => {
                if texts.len() > 0 {
                    Some(texts[0].clone())
                } else {
                    None
                }
            },
        }
    }
}

impl I8OrString {
    /// The score as a text: a number in decimal, a text as it is.
    pub open spec fn text(self) -> Seq<char> {
        match self {
            I8OrString::I8(number) => decimal(number as int),
            I8OrString::String(text) => text@,
        }
    }

    /// Writes the score as a text.
    pub fn to_text(&self) -> (text: String)
        ensures
            text@ == self.text(),
    {
        match self {
            I8OrString::I8(number) => decimal_string(*number as i64),
            I8OrString::String(text) => text.clone(),
        }
    }
}

impl Other {
    /// No name stands twice in either reading.
    pub open spec fn well_formed(self) -> bool {
        &&& self.price matches Some(entries) ==> names_distinct(entries@)
        &&& self.review_score matches Some(entries) ==> names_distinct(entries@)
    }

    /// The value of the field `price`, where the reading as texts is there and has it.
    pub open spec fn price_text(self) -> Option<Seq<char>> {
        match self.price {
            Some(entries) => match entry_index(entries@, "price"@, 0) {
                Some(at) => Some(entries@[at].1@),
                None => None,
            },
            None => None,
        }
    }

    /// The value of the field `reviewScore` as a text, where the reading as scores is
    /// there and has it.
    pub open spec fn review_score_text(self) -> Option<Seq<char>> {
        match self.review_score {
            Some(entries) => match entry_index(entries@, "reviewScore"@, 0) {
                Some(at) => Some(entries@[at].1.text()),
                None => None,
            },
            None => None,
        }
    }

    /// The price to store for the phone.
    pub fn price(&self) -> (price: Option<String>)
        ensures
            match price {
                Some(price) => self.price_text() == Some(price@),
                None => self.price_text() is None,
            },
    {
        match &self.price {
            Some(entries) => match find_entry(entries, "price") {
                Some(at) => Some(entries[at].1.clone()),
                None => None,
            },
            None => None,
        }
    }

    /// The review score to store for the phone.
    pub fn review_score(&self) -> (score: Option<String>)
        ensures
            match score {
                Some(score) => self.review_score_text() == Some(score@),
                None => self.review_score_text() is None,
            },
    {
        match &self.review_score {
            Some(entries) => match find_entry(entries, "reviewScore") {
                Some(at) => Some(entries[at].1.to_text()),
                None => None,
            },
            None => None,
        }
    }
}

/// Among fields with no name twice, the price is the value of the field `price`, and the
/// score that of the field `reviewScore`, wherever they stand.
pub proof fn law_price_and_score_are_found_by_name(other: Other, i: int)
    requires
        other.well_formed(),
    ensures
        other.price matches Some(entries) ==> (0 <= i < entries@.len() && entries@[i].0@
            == "price"@ ==> other.price_text() == Some(entries@[i].1@)),
        other.review_score matches Some(entries) ==> (0 <= i < entries@.len() && entries@[i].0@
            == "reviewScore"@ ==> other.review_score_text() == Some(entries@[i].1.text())),
{
    if let Some(entries) = other.price {
        lemma_entry_index(entries@, "price"@, 0);
    }
    if let Some(entries) = other.review_score {
        lemma_entry_index(entries@, "reviewScore"@, 0);
    }
}

impl Phone {
    /// The name under which the phone is stored: the first of its names. A phone with an
    /// empty list of names has none.
    pub fn stored_name(&self) -> (name: Option<String>)
        ensures
            match name {
                Some(name) => self.name.texts().len() > 0 && name@ == self.name.texts()[0],
                None => self.name.texts().len() == 0,
            },
    {
        self.name.first()
    }

    /// The suffixes to store for the phone, in their order; none where the record has no
    /// such field.
    pub fn suffixes(&self) -> (list: Vec<String>)
        ensures
            string_views(list@) == (match self.suffix {
                Some(suffix) => suffix.texts(),
                None => Seq::<Seq<char>>::empty(),
            }),
    {
        match &self.suffix {
            Some(suffix) => suffix.to_list(),
            None => {
                let list: Vec<String> = Vec::new();
                assert(string_views(list@) =~= Seq::<Seq<char>>::empty());
                list
            },
        }
    }
}

} // verus!
