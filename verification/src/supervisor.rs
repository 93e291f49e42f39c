//! The watcher supervisor: one watcher for each configured source, none of
//! which shares anything with another.

pub mod laws;

use vstd::prelude::*;

use crate::source::Source;
use crate::watcher::started;
use crate::watcher::step_spec;
use crate::watcher::valid;
use crate::watcher::EventView;
use crate::watcher::SourceWatcher;
use crate::watcher::WatchAction;
use crate::watcher::WatchEvent;
use crate::watcher::WatcherView;

verus! {

/// The watchers that start on `sources`, each given with the length of its
/// log: one for each source, in the same order.
pub open spec fn launched(sources: Seq<(Source, u64)>, quiet: u64) -> Seq<WatcherView> {
    Seq::new(sources.len(), |i: int| started(sources[i].0@, sources[i].1 as nat, quiet))
}

/// Every watcher of the fleet is valid.
pub open spec fn all_valid(fleet: Seq<WatcherView>) -> bool {
    forall|i: int| 0 <= i < fleet.len() ==> valid(#[trigger] fleet[i])
}

/// One event for the watcher at `index`: that watcher takes its step, the
/// others stay as they are. An index that names no watcher changes nothing.
pub open spec fn fleet_step(fleet: Seq<WatcherView>, index: int, event: EventView) -> Seq<
    WatcherView,
> {
    if 0 <= index < fleet.len() {
        fleet.update(index, step_spec(fleet[index], event).0)
    } else {
        fleet
    }
}

/// The owner of all watchers of a process.
#[derive(Debug)]
pub struct Supervisor {
    watchers: Vec<SourceWatcher>,
}

impl View for Supervisor {
    type V = Seq<WatcherView>;

    closed spec fn view(&self) -> Seq<WatcherView> {
        Seq::new(self.watchers@.len(), |i: int| self.watchers@[i]@)
    }
}

impl Supervisor {
    /// Starts one watcher for each source, in the order given. Each source
    /// comes with the length of its log at this moment; `quiet` is the quiet
    /// window of every debouncer, in milliseconds.
    pub fn launch(sources: &Vec<(Source, u64)>, quiet: u64) -> (supervisor: Supervisor)
        ensures
            supervisor@ == launched(sources@, quiet),
            all_valid(supervisor@),
    {
        let mut watchers: Vec<SourceWatcher> = Vec::new();
        let mut i: usize = 0;
        while i < sources.len()
            invariant
                i <= sources.len(),
                watchers@.len() == i,
                forall|k: int|
                    0 <= k < i ==> (#[trigger] watchers@[k])@ == started(
                        sources@[k].0@,
                        sources@[k].1 as nat,
                        quiet,
                    ),
            decreases sources.len() - i,
        {
            let source = Source {
                name: sources[i].0.name.clone(),
                path: sources[i].0.path.clone(),
            };
            watchers.push(SourceWatcher::start(source, sources[i].1, quiet));
            i = i + 1;
        }
        let supervisor = Supervisor { watchers };
        assert(supervisor@ =~= launched(sources@, quiet));
        supervisor
    }

    /// How many watchers there are.
    pub fn len(&self) -> (len: usize)
        ensures
            len == self@.len(),
    {
        self.watchers.len()
    }

    /// The watcher at `index`, if there is one.
    pub fn watcher(&self, index: usize) -> (watcher: Option<&SourceWatcher>)
        ensures
            watcher is Some <==> index < self@.len(),
            watcher matches Some(w) ==> w@ == self@[index as int],
    {
        if index < self.watchers.len() {
            Some(&self.watchers[index])
        } else {
            None
        }
    }

    /// Hands `event` to the watcher at `index` and gives the action that
    /// follows. No other watcher is touched. An index that names no watcher
    /// gives nothing and changes nothing.
    pub fn step(&mut self, index: usize, event: WatchEvent) -> (action: Option<WatchAction>)
        ensures
            final(self)@ == fleet_step(old(self)@, index as int, event@),
            action is Some <==> index < old(self)@.len(),
            action matches Some(a) ==> a@ == step_spec(old(self)@[index as int], event@).1,
    {
        if index >= self.watchers.len() {
            return None;
        }
        let action = self.watchers[index].step(event);
        assert(self@ =~= fleet_step(old(self)@, index as int, event@));
        Some(action)
    }

    /// Gives the watchers away, each to be run by a task of its own.
    pub fn into_watchers(self) -> (watchers: Vec<SourceWatcher>)
        ensures
            watchers@.len() == self@.len(),
            forall|i: int| 0 <= i < watchers@.len() ==> (#[trigger] watchers@[i])@ == self@[i],
    {
        self.watchers
    }
}

} // verus!
