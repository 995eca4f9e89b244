//! The state behind the media viewer: the serialized media shown so far, when to redraw, and
//! how an action name is read.
use vstd::prelude::*;

use crate::text::{copy_strings, is_first_index, owned, split_once};

verus! {

/// The viewer's list of media, each held as its JSON text.
pub struct FenluPipeline {
    /// Number of media the view shows.
    pub total: usize,
    /// Whether a pipeline run is under way.
    pub running: bool,
    /// The media received in the current run.
    pub items: Vec<String>,
    /// When the view was last redrawn, in milliseconds.
    pub last_update_ms: u64,
}

/// Whether the total shown lies within the media received: every run keeps this, from
/// `start_run` on.
pub open spec fn total_within_items(v: FenluPipeline) -> bool {
    v.total <= v.items@.len()
}

/// Whether enough time has passed since the last redraw: strictly more than the interval
/// (a clock that went backwards counts as no time).
pub open spec fn redraw_due(last_ms: u64, now_ms: u64, interval_ms: u64) -> bool {
    now_ms >= last_ms && now_ms - last_ms > interval_ms
}

/// What `set_running` does: the flag takes the given value and nothing else changes.
pub open spec fn flag_set(before: FenluPipeline, after: FenluPipeline, running: bool) -> bool {
    &&& after.running == running
    &&& after.total == before.total
    &&& after.items == before.items
    &&& after.last_update_ms == before.last_update_ms
}

/// What `pipeline_returned` does: the flag drops only where the run succeeded.
pub open spec fn run_returned(before: FenluPipeline, after: FenluPipeline, ok: bool) -> bool {
    &&& after.running == (before.running && !ok)
    &&& after.total == before.total
    &&& after.items == before.items
    &&& after.last_update_ms == before.last_update_ms
}

/// What `start_run` does at time `now_ms`.
pub open spec fn run_started(before: FenluPipeline, after: FenluPipeline, now_ms: u64) -> bool {
    &&& after.total == 0
    &&& after.items@.len() == 0
    &&& after.last_update_ms == now_ms
    &&& after.running == before.running
}

/// What `receive_batch` does with `batch` at time `now_ms`, answering `r`.
pub open spec fn batch_received(
    before: FenluPipeline,
    after: FenluPipeline,
    batch: Seq<String>,
    now_ms: u64,
    interval_ms: u64,
    r: Option<usize>,
) -> bool {
    &&& after.items@ == before.items@ + batch
    &&& after.running == before.running
    &&& redraw_due(before.last_update_ms, now_ms, interval_ms) ==> {
        &&& r == Some(after.items@.len() as usize)
        &&& after.total == after.items@.len()
        &&& after.last_update_ms == now_ms
    }
    &&& !redraw_due(before.last_update_ms, now_ms, interval_ms) ==> {
        &&& r is None
        &&& after.total == before.total
        &&& after.last_update_ms == before.last_update_ms
    }
}

/// What `finish_run` does, answering `r`.
pub open spec fn run_finished(before: FenluPipeline, after: FenluPipeline, r: usize) -> bool {
    &&& r == before.items@.len()
    &&& after.total == r
    &&& after.items == before.items
    &&& after.running == before.running
    &&& after.last_update_ms == before.last_update_ms
}

impl FenluPipeline {
    /// An empty view.
    pub fn new() -> (r: FenluPipeline)
        ensures
            r.total == 0,
            !r.running,
            r.items@.len() == 0,
            r.last_update_ms == 0,
    {
        FenluPipeline { total: 0, running: false, items: Vec::new(), last_update_ms: 0 }
    }

    /// The media from position `at` on.  `at` must not lie past the end.
    pub fn items(&self, at: usize) -> (r: Vec<String>)
        requires
            at <= self.items@.len(),
        ensures
            r@ == self.items@.subrange(at as int, self.items@.len() as int),
    {
        let mut out: Vec<String> = Vec::new();
        let mut i: usize = at;
        while i < self.items.len()
            invariant
                at <= i <= self.items@.len(),
                out@ == self.items@.subrange(at as int, i as int),
            decreases self.items@.len() - i,
        {
            out.push(self.items[i].clone());
            assert(self.items@.subrange(at as int, i + 1) =~= self.items@.subrange(
                at as int,
                i as int,
            ).push(self.items@[i as int]));
            i = i + 1;
        }
        out
    }

    /// The media at `index`, or the empty text past the end.
    pub fn item(&self, index: usize) -> (r: String)
        ensures
            index < self.items@.len() ==> r == self.items@[index as int],
            index >= self.items@.len() ==> r@.len() == 0,
    {
        if index < self.items.len() {
            self.items[index].clone()
        } else {
            String::new()
        }
    }

    /// Records whether a run is under way.
    pub fn set_running(&mut self, running: bool)
        ensures
            flag_set(*old(self), *final(self), running),
    {
        self.running = running;
    }

    /// Records that the pipeline's run has returned, successfully or not.  Only a
    /// successful run lowers the flag: a failed one aborts its task with the flag still set.
    pub fn pipeline_returned(&mut self, ok: bool)
        ensures
            run_returned(*old(self), *final(self), ok),
    {
        if ok {
            self.running = false;
        }
    }

    /// Starts a run at time `now_ms`: the previous run's media are dropped.
    pub fn start_run(&mut self, now_ms: u64)
        ensures
            run_started(*old(self), *final(self), now_ms),
    {
        self.total = 0;
        self.items.clear();
        self.last_update_ms = now_ms;
    }

    /// Takes a batch of media at time `now_ms`.  Where the last redraw is more than
    /// `interval_ms` ago, the view is redrawn: the answer is the new total to show.
    pub fn receive_batch(&mut self, batch: Vec<String>, now_ms: u64, interval_ms: u64) -> (r:
        Option<usize>)
        ensures
            batch_received(*old(self), *final(self), batch@, now_ms, interval_ms, r),
    {
        let mut batch = batch;
        self.items.append(&mut batch);
        if now_ms >= self.last_update_ms && now_ms - self.last_update_ms > interval_ms {
            self.last_update_ms = now_ms;
            self.total = self.items.len();
            Some(self.total)
        } else {
            None
        }
    }

    /// Ends a run: the view shows every media received.
    pub fn finish_run(&mut self) -> (r: usize)
        ensures
            run_finished(*old(self), *final(self), r),
    {
        self.total = self.items.len();
        self.total
    }
}

/// A run, as the calls of one `run_pipeline` leave the view: `states[0]` before it,
/// `states[1]` after `start_run`, `states[i + 2]` after the batch `batches[i]` was received at
/// `times[i]`, and the last after `finish_run` answered `shown`.
pub open spec fn is_run(
    states: Seq<FenluPipeline>,
    start_ms: u64,
    batches: Seq<Seq<String>>,
    times: Seq<u64>,
    interval_ms: u64,
    redraws: Seq<Option<usize>>,
    shown: usize,
) -> bool {
    &&& states.len() == batches.len() + 3
    &&& times.len() == batches.len()
    &&& redraws.len() == batches.len()
    &&& run_started(states[0], states[1], start_ms)
    &&& forall|i: int|
        0 <= i < batches.len() ==> batch_received(
            states[i + 1],
            states[i + 2],
            #[trigger] batches[i],
            times[i],
            interval_ms,
            redraws[i],
        )
    &&& run_finished(states[batches.len() + 1int], states[batches.len() + 2int], shown)
}

/// Over a whole run the total shown starts at 0, never goes down, never passes the media
/// received, and ends at the number of media received; the running flag is left alone.
pub proof fn law_run_totals(
    states: Seq<FenluPipeline>,
    start_ms: u64,
    batches: Seq<Seq<String>>,
    times: Seq<u64>,
    interval_ms: u64,
    redraws: Seq<Option<usize>>,
    shown: usize,
)
    requires
        is_run(states, start_ms, batches, times, interval_ms, redraws, shown),
    ensures
        states[1].total == 0,
        forall|i: int, j: int|
            1 <= i <= j < states.len() ==> #[trigger] states[i].total <= #[trigger] states[j].total,
        forall|i: int| 1 <= i < states.len() ==> total_within_items(#[trigger] states[i]),
        states.last().total == states.last().items@.len(),
        shown == states.last().items@.len(),
        forall|i: int| 0 <= i < states.len() ==> #[trigger] states[i].running == states[0].running,
{
    lemma_run_steps(states, start_ms, batches, times, interval_ms, redraws, shown, states.len() - 1);
    assert forall|i: int, j: int| 1 <= i <= j < states.len() implies #[trigger] states[i].total
        <= #[trigger] states[j].total by {
        lemma_run_steps(states, start_ms, batches, times, interval_ms, redraws, shown, j);
    }
    assert forall|i: int| 1 <= i < states.len() implies total_within_items(#[trigger] states[i]) by {
        lemma_run_steps(states, start_ms, batches, times, interval_ms, redraws, shown, i);
    }
    assert forall|i: int| 0 <= i < states.len() implies #[trigger] states[i].running
        == states[0].running by {
        lemma_run_steps(states, start_ms, batches, times, interval_ms, redraws, shown, i);
    }
}

/// The run's states up to `k` keep the total within the media, rising, with the flag alone.
proof fn lemma_run_steps(
    states: Seq<FenluPipeline>,
    start_ms: u64,
    batches: Seq<Seq<String>>,
    times: Seq<u64>,
    interval_ms: u64,
    redraws: Seq<Option<usize>>,
    shown: usize,
    k: int,
)
    requires
        is_run(states, start_ms, batches, times, interval_ms, redraws, shown),
        0 <= k < states.len(),
    ensures
        k >= 1 ==> total_within_items(states[k]),
        forall|i: int| 1 <= i <= k ==> #[trigger] states[i].total <= states[k].total,
        states[k].running == states[0].running,
    decreases k,
{
    if k >= 2 {
        lemma_run_steps(states, start_ms, batches, times, interval_ms, redraws, shown, k - 1);
        if k - 2 < batches.len() {
            let b = batches[k - 2];
            assert(batch_received(
                states[k - 1],
                states[k],
                b,
                times[k - 2],
                interval_ms,
                redraws[k - 2],
            ));
        }
    }
}

/// A run that returns lowers the running flag that was raised before it exactly when it
/// succeeded.
pub proof fn law_running_flag(
    idle: FenluPipeline,
    raised: FenluPipeline,
    returned: FenluPipeline,
    ok: bool,
)
    requires
        flag_set(idle, raised, true),
        run_returned(raised, returned, ok),
    ensures
        returned.running == !ok,
        returned.total == idle.total,
        returned.items == idle.items,
{
}

/// The list of scripts the viewer offers, by file name.
pub struct FenluScripts {
    pub scripts: Vec<String>,
    pub total: usize,
}

impl FenluScripts {
    /// The list of the given script names.
    pub fn new(scripts: Vec<String>) -> (r: FenluScripts)
        ensures
            r.scripts == scripts,
            r.total == scripts@.len(),
    {
        let total = scripts.len();
        FenluScripts { scripts, total }
    }

    /// The script name at `index`, or the empty text past the end.
    pub fn item(&self, index: usize) -> (r: String)
        ensures
            index < self.scripts@.len() ==> r == self.scripts@[index as int],
            index >= self.scripts@.len() ==> r@.len() == 0,
    {
        if index < self.scripts.len() {
            self.scripts[index].clone()
        } else {
            String::new()
        }
    }
}

/// How often the URL feed hands its list to the view, in milliseconds.
pub const FEED_RENDER_INTERVAL_MS: u64 = 500;

/// The URLs read from the batch tool's output, and when the view last got them.
pub struct UrlFeed {
    pub items: Vec<String>,
    pub last_update_ms: u64,
}

/// Whether the feed is due to hand its list over: at least the render interval has passed
/// (a clock that went backwards counts as no time).
pub open spec fn feed_due(last_ms: u64, now_ms: u64) -> bool {
    now_ms >= last_ms && now_ms - last_ms >= FEED_RENDER_INTERVAL_MS
}

impl UrlFeed {
    /// An empty feed started at `now_ms`.
    pub fn new(now_ms: u64) -> (r: UrlFeed)
        ensures
            r.items@.len() == 0,
            r.last_update_ms == now_ms,
    {
        UrlFeed { items: Vec::new(), last_update_ms: now_ms }
    }

    /// Takes the URL of one more media at time `now_ms`; where the interval has passed, the
    /// answer is the whole list for the view.
    pub fn push_url(&mut self, url: String, now_ms: u64) -> (r: Option<Vec<String>>)
        ensures
            final(self).items@ == old(self).items@.push(url),
            feed_due(old(self).last_update_ms, now_ms) ==> {
                &&& r matches Some(v) && v@ == final(self).items@
                &&& final(self).last_update_ms == now_ms
            },
            !feed_due(old(self).last_update_ms, now_ms) ==> {
                &&& r is None
                &&& final(self).last_update_ms == old(self).last_update_ms
            },
    {
        self.items.push(url);
        if now_ms >= self.last_update_ms && now_ms - self.last_update_ms >= FEED_RENDER_INTERVAL_MS {
            self.last_update_ms = now_ms;
            Some(copy_strings(&self.items))
        } else {
            None
        }
    }

    /// The whole list, for the view once the output has ended.
    pub fn finish(self) -> (r: Vec<String>)
        ensures
            r == self.items,
    {
        self.items
    }
}

/// Reads an action written `script/action` into the script's name and the action's name, split
/// at the first `/`; `None` where there is no `/`.
pub fn split_action(action: &str) -> (r: Option<(String, String)>)
    ensures
        match r {
            None => forall|j: int| 0 <= j < action@.len() ==> action@[j] != '/',
            Some((script, name)) => {
                &&& is_first_index(action@, '/', script@.len() as int)
                &&& action@ == script@ + seq!['/'] + name@
            },
        },
{
    split_once(action, '/')
}

/// The settings of the viewer that runs the batch tool.
#[derive(Debug)]
pub struct Config {
    pub generation_script: String,
    pub load_script: String,
}

/// The command that generates and saves media, where the config gives none.
pub fn default_generation_script() -> (r: String)
    ensures
        r@ == "fenlu-cli -m save scripts/*"@,
{
    owned("fenlu-cli -m save scripts/*")
}

/// The command that loads saved media, where the config gives none.
pub fn default_load_script() -> (r: String)
    ensures
        r@ == "fenlu-cli -m load scripts/*"@,
{
    owned("fenlu-cli -m load scripts/*")
}

} // verus!
