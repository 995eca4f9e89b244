//! The pipeline: the table of running scripts, and what each stage does to a batch of media.
use vstd::prelude::*;

use crate::paths::{named_path, path_to_name, portable_path, slash_file_name, try_path_to_name};
use crate::protocol::capabilities::{Capabilities, Type};
use crate::protocol::media::{GenerateRequest, GenerateResponse, Media};
use crate::keyed::KeyedList;

verus! {

/// `after` is `before` with `name` added at the end of its history.
pub open spec fn stamped(before: Media, after: Media, name: Seq<char>) -> bool {
    &&& after.history@.len() == before.history@.len() + 1
    &&& forall|i: int|
        0 <= i < before.history@.len() ==> #[trigger] after.history@[i] == before.history@[i]
    &&& after.history@.last()@ == name
    &&& after.title == before.title
    &&& after.uri == before.uri
    &&& after.extra_source == before.extra_source
    &&& after.tags == before.tags
    &&& after.extra == before.extra
}

/// Records that `media` has passed through the script at `path`: its file name is added to
/// the history.  The path must be portable and have a file name.
pub fn append_history(path: &str, media: &mut Media)
    requires
        named_path(path@),
    ensures
        stamped(*old(media), *final(media), slash_file_name(path@).unwrap()),
{
    let name = path_to_name(path);
    media.history.push(name);
}

/// Adds the script's file name to the history of `media`, or leaves it unchanged and answers
/// `false` where the path has no file name.  On a path that is not portable the file name is
/// the platform's.
pub fn try_append_history(path: &str, media: &mut Media) -> (r: bool)
    ensures
        portable_path(path@) ==> r == (slash_file_name(path@) is Some),
        portable_path(path@) && r ==> stamped(*old(media), *final(media), slash_file_name(path@).unwrap()),
        r ==> exists|name: Seq<char>| stamped(*old(media), *final(media), name),
        !r ==> *final(media) == *old(media),
{
    match try_path_to_name(path) {
        Some(name) => {
            let ghost n = name@;
            media.history.push(name);
            assert(stamped(*old(media), *media, n));
            true
        },
        None => false,
    }
}

/// Adds `name` to the history of every media of the batch.
pub fn stamp_history(name: &String, batch: Vec<Media>) -> (r: Vec<Media>)
    ensures
        r@.len() == batch@.len(),
        forall|i: int| 0 <= i < batch@.len() ==> stamped(batch@[i], #[trigger] r@[i], name@),
{
    let mut batch = batch;
    let ghost before = batch@;
    let mut i: usize = 0;
    while i < batch.len()
        invariant
            i <= batch@.len(),
            batch@.len() == before.len(),
            forall|j: int| 0 <= j < i ==> stamped(before[j], #[trigger] batch@[j], name@),
            forall|j: int| i <= j < batch@.len() ==> #[trigger] batch@[j] == before[j],
        decreases batch@.len() - i,
    {
        batch[i].history.push(name.clone());
        i = i + 1;
    }
    batch
}

/// The media of `buffer` whose verdict is `true`, in their order.
pub open spec fn kept(buffer: Seq<Media>, verdicts: Seq<bool>) -> Seq<Media>
    decreases buffer.len(),
{
    if buffer.len() == 0 {
        Seq::empty()
    } else {
        let rest = kept(buffer.drop_last(), verdicts);
        if verdicts[buffer.len() - 1] {
            rest.push(buffer.last())
        } else {
            rest
        }
    }
}

/// Number of `true` verdicts among the first `n`.
pub open spec fn count_true(verdicts: Seq<bool>, n: int) -> nat
    decreases n,
{
    if n <= 0 {
        0
    } else {
        count_true(verdicts, n - 1) + if verdicts[n - 1] {
            1nat
        } else {
            0nat
        }
    }
}

/// Keeps the media of `buffer` whose verdict (by position) is `true`.  There must be a
/// verdict for every media.
pub fn keep_by_verdicts(buffer: Vec<Media>, verdicts: &Vec<bool>) -> (r: Vec<Media>)
    requires
        verdicts@.len() >= buffer@.len(),
    ensures
        r@ == kept(buffer@, verdicts@),
{
    let mut out: Vec<Media> = Vec::new();
    let ghost all = buffer@;
    let n = buffer.len();
    let mut i: usize = 0;
    for m in it: buffer
        invariant
            verdicts@.len() >= all.len(),
            it.seq() == all,
            i == it.index(),
            i <= all.len(),
            all.len() == n,
            out@ == kept(all.subrange(0, i as int), verdicts@),
    {
        assert(i < all.len());
        assert(all.subrange(0, i + 1).drop_last() =~= all.subrange(0, i as int));
        if verdicts[i] {
            out.push(m);
        }
        i = i + 1;
    }
    assert(all.subrange(0, all.len() as int) =~= all);
    out
}

/// A filter stage: keeps the media that the filter script accepted and adds the script's
/// name to their history.
pub fn filter_step(buffer: Vec<Media>, verdicts: &Vec<bool>, name: &String) -> (r: Vec<Media>)
    requires
        verdicts@.len() >= buffer@.len(),
    ensures
        r@.len() == kept(buffer@, verdicts@).len(),
        forall|i: int|
            0 <= i < r@.len() ==> stamped(kept(buffer@, verdicts@)[i], #[trigger] r@[i], name@),
{
    let k = keep_by_verdicts(buffer, verdicts);
    stamp_history(name, k)
}

/// A filter keeps as many media as it gave `true` verdicts to.
pub proof fn lemma_kept_len(buffer: Seq<Media>, verdicts: Seq<bool>)
    requires
        verdicts.len() >= buffer.len(),
    ensures
        kept(buffer, verdicts).len() == count_true(verdicts, buffer.len() as int),
    decreases buffer.len(),
{
    if buffer.len() > 0 {
        lemma_kept_len(buffer.drop_last(), verdicts);
    }
}

/// Where a source script stands: how many generate requests it has answered, and whether it
/// said it has no more.
#[derive(Debug, Clone, Copy, PartialEq, Eq, Structural)]
pub struct SourceProgress {
    pub state: u64,
    pub finished: bool,
}

impl SourceProgress {
    /// A source that has not been asked yet.
    pub fn new() -> (r: SourceProgress)
        ensures
            r.state == 0,
            !r.finished,
    {
        SourceProgress { state: 0, finished: false }
    }
}

/// The batch size that a generate request carries: the buffer size, or `u32::MAX` where the
/// buffer size is larger.
pub open spec fn request_batch_size(buffer_size: usize) -> u32 {
    if buffer_size > u32::MAX {
        u32::MAX
    } else {
        buffer_size as u32
    }
}

/// The next generate request for a source.
pub fn generate_request(progress: &SourceProgress, buffer_size: usize) -> (r: GenerateRequest)
    ensures
        r.batch_size == request_batch_size(buffer_size),
        r.state == progress.state,
{
    let batch_size: u32 = if buffer_size > 4294967295usize {
        4294967295u32
    } else {
        buffer_size as u32
    };
    GenerateRequest { batch_size, state: progress.state }
}

/// A source stage: the source's batch, each media stamped with the source's name; the
/// source has answered one more request, and is finished where it says so.
pub fn source_step(progress: &mut SourceProgress, name: &String, response: GenerateResponse) -> (r:
    Vec<Media>)
    requires
        old(progress).state < u64::MAX,
    ensures
        final(progress).state == old(progress).state + 1,
        final(progress).finished == response.finished,
        r@.len() == response.media@.len(),
        forall|i: int|
            0 <= i < response.media@.len() ==> stamped(response.media@[i], #[trigger] r@[i], name@),
{
    progress.state = progress.state + 1;
    progress.finished = response.finished;
    stamp_history(name, response.media)
}

/// The names of `names` seen as character sequences.
pub open spec fn names_view(names: Seq<String>) -> Seq<Seq<char>> {
    names.map_values(|s: String| s@)
}

/// The scripts of `order` whose declared role is `role`, in order.
pub open spec fn names_with_role(
    order: Seq<Seq<char>>,
    table: Map<Seq<char>, Capabilities>,
    role: Type,
) -> Seq<Seq<char>>
    decreases order.len(),
{
    if order.len() == 0 {
        Seq::empty()
    } else {
        let rest = names_with_role(order.drop_last(), table, role);
        if table[order.last()].media.0 == role {
            rest.push(order.last())
        } else {
            rest
        }
    }
}

/// The scripts of `order` that take a query, in order.
pub open spec fn names_with_query(order: Seq<Seq<char>>, table: Map<Seq<char>, Capabilities>) -> Seq<
    Seq<char>,
>
    decreases order.len(),
{
    if order.len() == 0 {
        Seq::empty()
    } else {
        let rest = names_with_query(order.drop_last(), table);
        if table[order.last()].query.set {
            rest.push(order.last())
        } else {
            rest
        }
    }
}

/// The actions of the scripts named in `history`, each written `script/action`: script by
/// script in the order of the history, skipping names that are not in the table, and each
/// script's actions in the order it declared them.
pub open spec fn actions_of(table: Map<Seq<char>, Capabilities>, history: Seq<Seq<char>>) -> Seq<
    Seq<char>,
>
    decreases history.len(),
{
    if history.len() == 0 {
        Seq::empty()
    } else {
        let rest = actions_of(table, history.drop_last());
        let name = history.last();
        if table.contains_key(name) {
            rest + table[name].actions@.map_values(|a: String| name + "/"@ + a@)
        } else {
            rest
        }
    }
}

/// A script lands in the list of the role it declared, and only there: every name listed for
/// `role` is a script of `order` that declared `role`, and every script of `order` that
/// declared `role` is listed, whatever its query flag.
pub proof fn law_roles_by_declared_type(
    order: Seq<Seq<char>>,
    table: Map<Seq<char>, Capabilities>,
    role: Type,
)
    ensures
        forall|k: int|
            0 <= k < names_with_role(order, table, role).len() ==> {
                &&& table[#[trigger] names_with_role(order, table, role)[k]].media.0 == role
                &&& order.contains(names_with_role(order, table, role)[k])
            },
        forall|i: int|
            0 <= i < order.len() && table[#[trigger] order[i]].media.0 == role ==> names_with_role(
                order,
                table,
                role,
            ).contains(order[i]),
    decreases order.len(),
{
    if order.len() > 0 {
        let rest = order.drop_last();
        law_roles_by_declared_type(rest, table, role);
        let r = names_with_role(order, table, role);
        let rr = names_with_role(rest, table, role);
        assert forall|k: int| 0 <= k < r.len() implies {
            &&& table[#[trigger] r[k]].media.0 == role
            &&& order.contains(r[k])
        } by {
            if k < rr.len() {
                assert(r[k] == rr[k]);
                let j = choose|j: int| 0 <= j < rest.len() && rest[j] == rr[k];
                assert(order[j] == rest[j]);
            } else {
                assert(r[k] == order.last());
                assert(order[order.len() - 1] == order.last());
            }
        }
        assert forall|i: int|
            0 <= i < order.len() && table[#[trigger] order[i]].media.0 == role implies r.contains(
            order[i],
        ) by {
            if i < order.len() - 1 {
                assert(rest[i] == order[i]);
                let j = choose|j: int| 0 <= j < rr.len() && rr[j] == rest[i];
                assert(r[j] == rr[j]);
            } else {
                assert(r[r.len() - 1] == order[i]);
            }
        }
    }
}

/// A script is listed as taking a query exactly when its declared query flag is set,
/// whatever its role: every listed name is a script of `order` whose flag is set, and every
/// script of `order` whose flag is set is listed.
pub proof fn law_queryable_by_flag(order: Seq<Seq<char>>, table: Map<Seq<char>, Capabilities>)
    ensures
        forall|k: int|
            0 <= k < names_with_query(order, table).len() ==> {
                &&& table[#[trigger] names_with_query(order, table)[k]].query.set
                &&& order.contains(names_with_query(order, table)[k])
            },
        forall|i: int|
            0 <= i < order.len() && table[#[trigger] order[i]].query.set ==> names_with_query(
                order,
                table,
            ).contains(order[i]),
    decreases order.len(),
{
    if order.len() > 0 {
        let rest = order.drop_last();
        law_queryable_by_flag(rest, table);
        let r = names_with_query(order, table);
        let rr = names_with_query(rest, table);
        assert forall|k: int| 0 <= k < r.len() implies {
            &&& table[#[trigger] r[k]].query.set
            &&& order.contains(r[k])
        } by {
            if k < rr.len() {
                assert(r[k] == rr[k]);
                let j = choose|j: int| 0 <= j < rest.len() && rest[j] == rr[k];
                assert(order[j] == rest[j]);
            } else {
                assert(r[k] == order.last());
                assert(order[order.len() - 1] == order.last());
            }
        }
        assert forall|i: int|
            0 <= i < order.len() && table[#[trigger] order[i]].query.set implies r.contains(
            order[i],
        ) by {
            if i < order.len() - 1 {
                assert(rest[i] == order[i]);
                let j = choose|j: int| 0 <= j < rr.len() && rr[j] == rest[i];
                assert(r[j] == rr[j]);
            } else {
                assert(r[r.len() - 1] == order[i]);
            }
        }
    }
}

/// `name/action`, the way an action of a script is offered.
pub open spec fn offered(name: Seq<char>, action: Seq<char>) -> Seq<char> {
    name + "/"@ + action
}

/// Every action of every script named anywhere in the history, the first entry (the media's
/// source) included, is offered as `script/action`.
pub proof fn law_history_actions_offered(
    table: Map<Seq<char>, Capabilities>,
    history: Seq<Seq<char>>,
    i: int,
    j: int,
)
    requires
        0 <= i < history.len(),
        table.contains_key(history[i]),
        0 <= j < table[history[i]].actions@.len(),
    ensures
        actions_of(table, history).contains(offered(history[i], table[history[i]].actions@[j]@)),
    decreases history.len(),
{
    let rest = history.drop_last();
    let r = actions_of(table, history);
    let rr = actions_of(table, rest);
    if i < history.len() - 1 {
        assert(rest[i] == history[i]);
        law_history_actions_offered(table, rest, i, j);
        let k = choose|k: int|
            0 <= k < rr.len() && rr[k] == offered(history[i], table[history[i]].actions@[j]@);
        if table.contains_key(history.last()) {
            assert(r[k] == rr[k]);
        }
    } else {
        let name = history.last();
        let added = table[name].actions@.map_values(|a: String| name + "/"@ + a@);
        assert(r == rr + added);
        assert(r[rr.len() + j] == added[j]);
    }
}

/// Everything offered is `script/action` for a script named in the history and one of its
/// actions.
pub proof fn law_offered_actions_come_from_history(
    table: Map<Seq<char>, Capabilities>,
    history: Seq<Seq<char>>,
    k: int,
)
    requires
        0 <= k < actions_of(table, history).len(),
    ensures
        exists|i: int, j: int|
            0 <= i < history.len() && table.contains_key(history[i]) && 0 <= j
                < table[history[i]].actions@.len() && actions_of(table, history)[k] == offered(
                #[trigger] history[i],
                #[trigger] table[history[i]].actions@[j]@,
            ),
    decreases history.len(),
{
    let rest = history.drop_last();
    let r = actions_of(table, history);
    let rr = actions_of(table, rest);
    if k < rr.len() {
        law_offered_actions_come_from_history(table, rest, k);
        let (i, j) = choose|i: int, j: int|
            0 <= i < rest.len() && table.contains_key(rest[i]) && 0 <= j
                < table[rest[i]].actions@.len() && rr[k] == offered(
                #[trigger] rest[i],
                #[trigger] table[rest[i]].actions@[j]@,
            );
        assert(history[i] == rest[i]);
        if table.contains_key(history.last()) {
            assert(r[k] == rr[k]);
        }
        assert(r[k] == offered(history[i], table[history[i]].actions@[j]@));
    } else {
        let name = history.last();
        let added = table[name].actions@.map_values(|a: String| name + "/"@ + a@);
        assert(table.contains_key(name));
        assert(r[k] == added[k - rr.len()]);
        assert(history[history.len() - 1] == name);
        assert(r[k] == offered(history[history.len() - 1], table[history[history.len() - 1]].actions@[k - rr.len()]@));
    }
}

/// A history of one known script offers exactly that script's actions, in the order it
/// declared them, each prefixed by its name and `/`.
pub proof fn law_single_script_actions(table: Map<Seq<char>, Capabilities>, name: Seq<char>)
    requires
        table.contains_key(name),
    ensures
        actions_of(table, seq![name]).len() == table[name].actions@.len(),
        forall|j: int|
            0 <= j < table[name].actions@.len() ==> #[trigger] actions_of(table, seq![name])[j]
                == offered(name, table[name].actions@[j]@),
{
    let h = seq![name];
    assert(h.drop_last() =~= Seq::<Seq<char>>::empty());
    assert(h.last() == name);
    assert(actions_of(table, h.drop_last()) =~= Seq::<Seq<char>>::empty());
}

/// The actions of a history are those of its first part followed by those of the rest.
pub proof fn law_actions_concat(
    table: Map<Seq<char>, Capabilities>,
    first: Seq<Seq<char>>,
    second: Seq<Seq<char>>,
)
    ensures
        actions_of(table, first + second) == actions_of(table, first) + actions_of(table, second),
    decreases second.len(),
{
    if second.len() == 0 {
        assert(first + second =~= first);
        assert(actions_of(table, second) =~= Seq::<Seq<char>>::empty());
        assert(actions_of(table, first) + actions_of(table, second) =~= actions_of(table, first));
    } else {
        law_actions_concat(table, first, second.drop_last());
        assert((first + second).drop_last() =~= first + second.drop_last());
        assert((first + second).last() == second.last());
        let name = second.last();
        if table.contains_key(name) {
            let added = table[name].actions@.map_values(|a: String| name + "/"@ + a@);
            assert(actions_of(table, first) + actions_of(table, second) =~= actions_of(
                table,
                first,
            ) + actions_of(table, second.drop_last()) + added);
        }
    }
}

/// The scripts of a pipeline by file name, with what each declared it can do.
pub type ScriptTable = KeyedList<Capabilities>;

/// The scripts of a pipeline split by role.
pub struct ScriptRoles {
    pub sources: Vec<String>,
    pub transforms: Vec<String>,
    pub filters: Vec<String>,
}

/// Every script has exactly one role: the three lists together are as long as the table.
pub proof fn lemma_roles_partition(order: Seq<Seq<char>>, table: Map<Seq<char>, Capabilities>)
    ensures
        names_with_role(order, table, Type::Source).len() + names_with_role(
            order,
            table,
            Type::Transform,
        ).len() + names_with_role(order, table, Type::Filter).len() == order.len(),
    decreases order.len(),
{
    if order.len() > 0 {
        lemma_roles_partition(order.drop_last(), table);
    }
}

impl KeyedList<Capabilities> {
    /// The scripts split by the role they declared, each list in table order.
    pub fn roles(&self) -> (r: ScriptRoles)
        ensures
            names_view(r.sources@) == names_with_role(self.order(), self.table(), Type::Source),
            names_view(r.transforms@) == names_with_role(
                self.order(),
                self.table(),
                Type::Transform,
            ),
            names_view(r.filters@) == names_with_role(self.order(), self.table(), Type::Filter),
    {
        let mut sources: Vec<String> = Vec::new();
        let mut transforms: Vec<String> = Vec::new();
        let mut filters: Vec<String> = Vec::new();
        let n = self.len();
        let mut i: usize = 0;
        while i < n
            invariant
                i <= n,
                n == self.order().len(),
                names_view(sources@) =~= names_with_role(
                    self.order().subrange(0, i as int),
                    self.table(),
                    Type::Source,
                ),
                names_view(transforms@) =~= names_with_role(
                    self.order().subrange(0, i as int),
                    self.table(),
                    Type::Transform,
                ),
                names_view(filters@) =~= names_with_role(
                    self.order().subrange(0, i as int),
                    self.table(),
                    Type::Filter,
                ),
            decreases n - i,
        {
            let ghost pre = self.order().subrange(0, i + 1);
            assert(pre.drop_last() =~= self.order().subrange(0, i as int));
            assert(pre.last() == self.order()[i as int]);
            let (name, caps) = self.entry(i);
            match caps.media.0 {
                Type::Source => sources.push(name.clone()),
                Type::Transform => transforms.push(name.clone()),
                Type::Filter => filters.push(name.clone()),
            }
            i = i + 1;
        }
        assert(self.order().subrange(0, n as int) =~= self.order());
        ScriptRoles { sources, transforms, filters }
    }

    /// The scripts that take a query, in table order.
    pub fn queryable_scripts(&self) -> (r: Vec<String>)
        ensures
            names_view(r@) == names_with_query(self.order(), self.table()),
    {
        let mut out: Vec<String> = Vec::new();
        let n = self.len();
        let mut i: usize = 0;
        while i < n
            invariant
                i <= n,
                n == self.order().len(),
                names_view(out@) =~= names_with_query(
                    self.order().subrange(0, i as int),
                    self.table(),
                ),
            decreases n - i,
        {
            let ghost pre = self.order().subrange(0, i + 1);
            assert(pre.drop_last() =~= self.order().subrange(0, i as int));
            assert(pre.last() == self.order()[i as int]);
            let (name, caps) = self.entry(i);
            if caps.query.set {
                out.push(name.clone());
            }
            i = i + 1;
        }
        assert(self.order().subrange(0, n as int) =~= self.order());
        out
    }

    /// The actions offered by the scripts a media has passed through, each written
    /// `script/action`.
    pub fn actions_for_scripts(&self, history: &Vec<String>) -> (r: Vec<String>)
        ensures
            names_view(r@) == actions_of(self.table(), names_view(history@)),
    {
        let mut out: Vec<String> = Vec::new();
        let mut i: usize = 0;
        while i < history.len()
            invariant
                i <= history@.len(),
                names_view(out@) =~= actions_of(
                    self.table(),
                    names_view(history@).subrange(0, i as int),
                ),
            decreases history@.len() - i,
        {
            let ghost pre = names_view(history@).subrange(0, i + 1);
            assert(pre.drop_last() =~= names_view(history@).subrange(0, i as int));
            let name = &history[i];
            assert(pre.last() == name@);
            match self.get(name.as_str()) {
                Some(caps) => {
                    let ghost before = out@;
                    let ghost added = caps.actions@.map_values(|a: String| name@ + "/"@ + a@);
                    let mut k: usize = 0;
                    while k < caps.actions.len()
                        invariant
                            k <= caps.actions@.len(),
                            names_view(out@) =~= names_view(before) + added.subrange(0, k as int),
                            added == caps.actions@.map_values(|a: String| name@ + "/"@ + a@),
                        decreases caps.actions@.len() - k,
                    {
                        let mut entry = name.clone();
                        entry.append("/");
                        entry.append(caps.actions[k].as_str());
                        assert(entry@ == added[k as int]);
                        let ghost prev = out@;
                        out.push(entry);
                        assert(names_view(out@) =~= names_view(prev).push(added[k as int]));
                        assert(added.subrange(0, k + 1) =~= added.subrange(0, k as int).push(
                            added[k as int],
                        ));
                        k = k + 1;
                    }
                    assert(added.subrange(0, caps.actions@.len() as int) =~= added);
                },
                None => {},
            }
            i = i + 1;
        }
        assert(names_view(history@).subrange(0, history@.len() as int) =~= names_view(history@));
        out
    }
}

/// The pipeline: the scripts it runs.
pub struct Pipeline {
    pub scripts: ScriptTable,
}

impl Default for Pipeline {
    /// A pipeline with no scripts.
    fn default() -> (r: Pipeline)
        ensures
            r.scripts.order().len() == 0,
            r.scripts.table() == Map::<Seq<char>, Capabilities>::empty(),
    {
        Pipeline { scripts: KeyedList::new() }
    }
}


} // verus!
