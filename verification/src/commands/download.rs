//! The rules of the tool that downloads the catalogue: what it asks for, and in which
//! order it walks the samples of a channel.

pub mod requests;

use vstd::prelude::*;

verus! {

/// What the walk over the samples of one channel does next. Sample 0 is the channel's
/// plain file; the samples from 1 on carry their number in the file's name.
#[derive(Clone, Copy, PartialEq, Eq, Debug, Structural)]
pub enum ChannelStep {
    /// Ask the database whether the sample is stored already.
    Probe(i64),
    /// Request the sample's file, and store it where the request succeeds.
    Fetch(i64),
    /// The walk is over.
    Done,
}

/// The sample behind `index`, or the end of the walk where there is no greater number.
pub open spec fn next_or_done(index: i64, step: spec_fn(i64) -> ChannelStep) -> ChannelStep {
    if index < i64::MAX {
        step((index + 1) as i64)
    } else {
        ChannelStep::Done
    }
}

/// The step that follows a look into the database for sample `index`. Sample 0 is
/// requested only where it is not stored. Of the later samples those that are stored are
/// passed over, one after the other, and the first that is not stored is requested.
pub open spec fn step_after_probe(index: i64, stored: bool) -> ChannelStep {
    if !stored {
        ChannelStep::Fetch(index)
    } else if index == 0 {
        ChannelStep::Done
    } else {
        next_or_done(index, |next: i64| ChannelStep::Probe(next))
    }
}

/// The step that follows a request for sample `index`. Sample 0 stands alone. From the
/// later samples on, each request that succeeds is followed by a request for the next
/// sample, and the first that fails ends the walk.
pub open spec fn step_after_fetch(index: i64, fetched: bool) -> ChannelStep {
    if !fetched || index == 0 {
        ChannelStep::Done
    } else {
        next_or_done(index, |next: i64| ChannelStep::Fetch(next))
    }
}

/// The first step of the walk over a channel's plain file.
pub fn first_sample() -> (step: ChannelStep)
    ensures
        step == ChannelStep::Probe(0),
{
    ChannelStep::Probe(0)
}

/// The first step of the walk over a channel's numbered files.
pub fn later_samples() -> (step: ChannelStep)
    ensures
        step == ChannelStep::Probe(1),
{
    ChannelStep::Probe(1)
}

/// Decides what follows a look into the database.
pub fn after_probe(index: i64, stored: bool) -> (step: ChannelStep)
    ensures
        step == step_after_probe(index, stored),
{
    if !stored {
        ChannelStep::Fetch(index)
    } else if index == 0 || index == i64::MAX {
        ChannelStep::Done
    } else {
        ChannelStep::Probe(index + 1)
    }
}

/// Decides what follows a request.
pub fn after_fetch(index: i64, fetched: bool) -> (step: ChannelStep)
    ensures
        step == step_after_fetch(index, fetched),
{
    if !fetched || index == 0 || index == i64::MAX {
        ChannelStep::Done
    } else {
        ChannelStep::Fetch(index + 1)
    }
}

} // verus!
