//! The names and addresses of the files that hold a channel's samples.

use crate::text::{decimal, decimal_string};
use vstd::prelude::*;
use vstd::string::StringExecFns;

verus! {

/// The name of the file that holds a channel's plain sample: the measurement's name,
/// then the channel's letter where there is one, behind a space.
pub open spec fn first_file_of(name: Seq<char>, channel: Option<Seq<char>>) -> Seq<char> {
    match channel {
        Some(channel) => name + " "@ + channel + ".txt"@,
        None => name + ".txt"@,
    }
}

/// The name of the file that holds sample `index` of a channel: the measurement's name,
/// a space, the channel's letter and the sample's number.
pub open spec fn later_file_of(name: Seq<char>, channel: Seq<char>, index: int) -> Seq<char> {
    name + " "@ + channel + decimal(index) + ".txt"@
}

/// The address of a file among a database's data.
pub open spec fn address_of(username: Seq<char>, folder: Seq<char>, file: Seq<char>) -> Seq<
    char,
> {
    "https://"@ + username + ".squig.link"@ + folder + "data/"@ + file
}

/// Names the file of a channel's plain sample.
pub fn first_file(name: &str, channel: Option<&str>) -> (file: String)
    ensures
        file@ == first_file_of(
            name@,
            match channel {
                Some(channel) => Some(channel@),
                None => None,
            },
        ),
{
    let mut file = String::from_str(name);
    if let Some(channel) = channel {
        file.append(" ");
        file.append(channel);
    }
    file.append(".txt");
    file
}

/// Names the file of sample `index` of a channel.
pub fn later_file(name: &str, channel: &str, index: i64) -> (file: String)
    ensures
        file@ == later_file_of(name@, channel@, index as int),
{
    let number = decimal_string(index);
    let mut file = String::from_str(name);
    file.append(" ");
    file.append(channel);
    file.append(number.as_str());
    file.append(".txt");
    file
}

/// The address of a file among a database's data.
pub fn address(username: &str, folder: &str, file: &str) -> (url: String)
    ensures
        url@ == address_of(username@, folder@, file@),
{
    let mut url = String::from_str("https://");
    url.append(username);
    url.append(".squig.link");
    url.append(folder);
    url.append("data/");
    url.append(file);
    url
}

/// The address of a database's list of brands and phones.
pub fn phone_book_address(username: &str, folder: &str) -> (url: String)
    ensures
        url@ == address_of(username@, folder@, "phone_book.json"@),
{
    address(username, folder, "phone_book.json")
}

} // verus!
