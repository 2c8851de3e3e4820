//! One measurement database of one site.

use vstd::prelude::*;
use vstd::string::{StringExecFns, StringSliceAdditionalSpecFns};
use vstd::utf8::encode_utf8;

verus! {

/// A database of a site: the folder it lives in, and the site's row and user name.
#[derive(Clone, Debug, PartialEq, Eq)]
pub struct Squig {
    pub folder: String,
    pub site_id: i64,
    pub username: String,
}

/// `folder` without the one slash that may end it.
pub open spec fn without_final_slash(folder: Seq<char>) -> Seq<char> {
    if folder.len() > 0 && folder.last() == '/' {
        folder.drop_last()
    } else {
        folder
    }
}

/// The title under which a database is shown: its host and its folder.
pub open spec fn title_of(username: Seq<char>, folder: Seq<char>) -> Seq<char> {
    username + ".squig.link"@ + without_final_slash(folder)
}

/// The number of bytes that a database's title takes.
pub open spec fn title_width(squig: Squig) -> usize {
    encode_utf8(title_of(squig.username@, squig.folder@)).len() as usize
}

/// The width of the widest title among `squigs`, and 5 where there is no database: the
/// width of the word under which the total is shown.
pub open spec fn widest_title(squigs: Seq<Squig>) -> usize
    decreases squigs.len(),
{
    if squigs.len() == 0 {
        5
    } else if squigs.len() == 1 {
        title_width(squigs[0])
    } else {
        let before = widest_title(squigs.drop_last());
        let last = title_width(squigs.last());
        if before >= last {
            before
        } else {
            last
        }
    }
}

/// The width of the column in which the titles of `squigs` are shown.
pub fn title_column_width(squigs: &Vec<Squig>) -> (width: usize)
    ensures
        width == widest_title(squigs@),
{
    if squigs.len() == 0 {
        return 5;
    }
    let first = squigs[0].title();
    let first_text = first.as_str();
    let mut width: usize = first_text.len();
    let mut i: usize = 1;
    assert(squigs@.take(1)[0] == squigs@[0]);
    assert(first_text.spec_bytes() == encode_utf8(first@));
    while i < squigs.len()
        invariant
            1 <= i <= squigs.len(),
            width == widest_title(squigs@.take(i as int)),
        decreases squigs.len() - i,
    {
        let title = squigs[i].title();
        let title_text = title.as_str();
        let here: usize = title_text.len();
        proof {
            assert(title_text.spec_bytes() == encode_utf8(title@));
            assert(squigs@.take(i + 1).drop_last() =~= squigs@.take(i as int));
            assert(squigs@.take(i + 1).last() == squigs@[i as int]);
        }
        if here > width {
            width = here;
        }
        i += 1;
    }
    assert(squigs@.take(squigs.len() as int) =~= squigs@);
    width
}

impl Squig {
    /// The title under which the database is shown while it is downloaded.
    pub fn title(&self) -> (title: String)
        ensures
            title@ == title_of(self.username@, self.folder@),
    {
        let mut title = self.username.clone();
        title.append(".squig.link");
        let ghost head = title@;
        let mut last: Option<char> = None;
        for c in it: self.folder.as_str().chars()
            invariant
                it.seq() == self.folder@,
                last == (if it.index() == 0 {
                    None::<char>
                } else {
                    Some(self.folder@[it.index() - 1])
                }),
                title@ == head + (if it.index() == 0 {
                    Seq::<char>::empty()
                } else {
                    self.folder@.take(it.index() - 1)
                }),
        {
            if let Some(held) = last {
                title.push(held);
                assert(title@ =~= head + self.folder@.take(it.index() as int));
            }
            last = Some(c);
        }
        let ghost n = self.folder@.len() as int;
        match last {
            Some(held) => {
                if held != '/' {
                    title.push(held);
                    assert(self.folder@.take(n - 1).push(held) =~= self.folder@);
                } else {
                    assert(self.folder@.take(n - 1) =~= self.folder@.drop_last());
                }
            },
            None => {
                assert(title@ =~= head + self.folder@);
            },
        }
        title
    }
}

} // verus!
