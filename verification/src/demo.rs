//! `--demo`: made-up paired devices. Every tick, the TV comes and goes,
//! and each connected demo device sends what the features make up for it.

use vstd::prelude::*;
use crate::text::owned;

verus! {

/// The demo TV's id: it comes and goes.
pub const TV: &'static str = "demo0tv000000000000000000000000004";

/// What a demo tick does to the TV.
#[derive(Debug, Clone, Copy, PartialEq, Eq, Structural)]
pub enum TvStep {
    /// The first tick leaves it as it started.
    Stay,
    Connect,
    Disconnect,
}

/// What tick `tick` does to the TV: after the first, it connects on odd
/// ticks and disconnects on even ones.
pub fn tv_step(tick: u64) -> (step: TvStep)
    ensures
        tick == 0 ==> step == TvStep::Stay,
        tick > 0 && tick % 2 == 1 ==> step == TvStep::Connect,
        tick > 0 && tick % 2 == 0 ==> step == TvStep::Disconnect,
{
    if tick == 0 {
        TvStep::Stay
    } else if tick % 2 == 1 {
        TvStep::Connect
    } else {
        TvStep::Disconnect
    }
}

/// The ids of the devices that are connected, in order.
pub open spec fn connected_ids(devices: Seq<(String, bool)>) -> Seq<Seq<char>>
    decreases devices.len(),
{
    if devices.len() == 0 {
        Seq::empty()
    } else {
        let rest = connected_ids(devices.drop_last());
        if devices.last().1 { rest.push(devices.last().0@) } else { rest }
    }
}

/// Which demo devices (id and whether connected now) send this tick: the
/// connected ones, in order.
pub fn senders(devices: &Vec<(String, bool)>) -> (ids: Vec<String>)
    ensures
        ids@.map_values(|s: String| s@) == connected_ids(devices@),
{
    let mut ids: Vec<String> = Vec::new();
    let mut i: usize = 0;
    assert(devices@.take(0) =~= Seq::<(String, bool)>::empty());
    while i < devices.len()
        invariant
            i <= devices@.len(),
            ids@.map_values(|s: String| s@) == connected_ids(devices@.take(i as int)),
        decreases devices@.len() - i,
    {
        assert(devices@.take(i + 1).drop_last() =~= devices@.take(i as int));
        assert(devices@.take(i + 1).last() == devices@[i as int]);
        if devices[i].1 {
            let ghost before = ids@.map_values(|s: String| s@);
            ids.push(owned(devices[i].0.as_str()));
            assert(ids@.map_values(|s: String| s@) =~= before.push(devices@[i as int].0@));
        }
        i = i + 1;
    }
    assert(devices@.take(devices@.len() as int) =~= devices@);
    ids
}

} // verus!
