//! The concurrent download-convert pipeline's verified core.
//!
//! The pipeline turns a family's token-to-URL table into one
//! [`DownloadUnit`] per resolvable variant ([`plan_downloads`]), lets each
//! unit walk its outcome state machine (`Pending` to `Downloaded` to
//! `Converted`, with `Failed` and `Converted` terminal), and tallies every
//! completion in one shared [`ProgressState`] whose single atomic operation
//! is [`ProgressState::record_completion`]. The unverified shell owns the
//! actual network, filesystem and process work, the task spawning and the
//! mutual exclusion; every decision about what a task's result means is
//! here.

use vstd::prelude::*;
use vstd::string::*;

use crate::fonts::lemma_token_style_injective;
use crate::fonts::style_name_spec;
use crate::fonts::token_style;
use crate::fonts::transpile_font_weight;
use crate::fonts::FontFamily;
use crate::fonts::FontStyles;
use crate::text::dec_of;
use crate::text::join_path;
use crate::text::join_path_spec;
use crate::text::u64_to_string;

verus! {

/// The lifecycle of one variant's task. `Failed` and `Converted` are
/// terminal: the marking methods only accept the states they follow.
#[derive(Clone, Copy, Debug, PartialEq, Eq, Structural)]
pub enum Outcome {
    Pending,
    Downloaded,
    Converted,
    Failed,
}

impl Outcome {
    /// A terminal outcome never changes again.
    pub open spec fn is_terminal(self) -> bool {
        self is Converted || self is Failed
    }
}

/// The ephemeral per-variant task state: the resolved style tag, where the
/// raw file comes from, where it is staged and where the converted artifact
/// ends up, and how far the task has come.
pub struct DownloadUnit {
    pub style: FontStyles,
    pub url: String,
    pub ttf_path: String,
    pub woff2_path: String,
    pub outcome: Outcome,
}

impl DownloadUnit {
    /// A unit has fully succeeded only when its conversion finished.
    pub open spec fn succeeded(self) -> bool {
        self.outcome is Converted
    }

    /// Records the download step's result: a fresh unit becomes
    /// `Downloaded` on success and `Failed` otherwise. Nothing else about
    /// the unit changes.
    pub fn mark_download(&mut self, ok: bool)
        requires
            old(self).outcome is Pending,
        ensures
            final(self).outcome == (if ok {
                Outcome::Downloaded
            } else {
                Outcome::Failed
            }),
            final(self).style == old(self).style,
            final(self).url == old(self).url,
            final(self).ttf_path == old(self).ttf_path,
            final(self).woff2_path == old(self).woff2_path,
    {
        if ok {
            self.outcome = Outcome::Downloaded;
        } else {
            self.outcome = Outcome::Failed;
        }
    }

    /// Records the conversion step's result: a downloaded unit reaches the
    /// terminal `Converted` on success and `Failed` otherwise. Nothing else
    /// about the unit changes.
    pub fn mark_conversion(&mut self, ok: bool)
        requires
            old(self).outcome is Downloaded,
        ensures
            final(self).outcome == (if ok {
                Outcome::Converted
            } else {
                Outcome::Failed
            }),
            final(self).outcome.is_terminal(),
            final(self).style == old(self).style,
            final(self).url == old(self).url,
            final(self).ttf_path == old(self).ttf_path,
            final(self).woff2_path == old(self).woff2_path,
    {
        if ok {
            self.outcome = Outcome::Converted;
        } else {
            self.outcome = Outcome::Failed;
        }
    }

    /// Whether this unit's task fully succeeded.
    pub fn is_success(&self) -> (r: bool)
        ensures
            r == self.succeeded(),
    {
        match self.outcome {
            Outcome::Converted => true,
            _ => false,
        }
    }
}

/// The file name of one variant's artifact: `<family>-<style>.<ext>`.
pub open spec fn unit_file_name(family: Seq<char>, style: FontStyles, ext: Seq<char>) -> Seq<
    char,
> {
    family + "-"@ + style_name_spec(style) + "."@ + ext
}

pub fn font_file_name(family_name: &str, style: FontStyles, ext: &str) -> (r: String)
    ensures
        r@ == unit_file_name(family_name@, style, ext@),
{
    let mut r = String::from_str(family_name);
    r.append("-");
    r.append(style.name());
    r.append(".");
    r.append(ext);
    proof {
        assert(r@ =~= unit_file_name(family_name@, style, ext@));
    }
    r
}

/// The token/URL pairs of a family's file table, seen as ghost sequences.
pub open spec fn pair_views(files: Seq<(String, String)>) -> Seq<(Seq<char>, Seq<char>)> {
    files.map_values(|p: (String, String)| (p.0@, p.1@))
}

/// The (style, URL) pairs of the tokens that resolve, in table order.
pub open spec fn plan_resolved(pairs: Seq<(Seq<char>, Seq<char>)>) -> Seq<(FontStyles, Seq<char>)>
    decreases pairs.len(),
{
    if pairs.len() == 0 {
        Seq::empty()
    } else {
        let prefix = plan_resolved(pairs.drop_last());
        match token_style(pairs.last().0) {
            Some(style) => prefix.push((style, pairs.last().1)),
            None => prefix,
        }
    }
}

/// The tokens that do not resolve, in table order.
pub open spec fn plan_failures(pairs: Seq<(Seq<char>, Seq<char>)>) -> Seq<Seq<char>>
    decreases pairs.len(),
{
    if pairs.len() == 0 {
        Seq::empty()
    } else {
        let prefix = plan_failures(pairs.drop_last());
        match token_style(pairs.last().0) {
            Some(style) => prefix,
            None => prefix.push(pairs.last().0),
        }
    }
}

/// Every table entry either resolves into a unit or is reported as a
/// mapping failure: nothing is silently dropped.
pub proof fn lemma_plan_partition(pairs: Seq<(Seq<char>, Seq<char>)>)
    ensures
        plan_resolved(pairs).len() + plan_failures(pairs).len() == pairs.len(),
    decreases pairs.len(),
{
    if pairs.len() > 0 {
        lemma_plan_partition(pairs.drop_last());
    }
}

/// How one planned unit relates to the resolved pair it was built from.
pub open spec fn unit_matches(
    u: DownloadUnit,
    resolved: (FontStyles, Seq<char>),
    family: Seq<char>,
    dir: Seq<char>,
) -> bool {
    &&& u.style == resolved.0
    &&& u.url@ == resolved.1
    &&& u.ttf_path@ == join_path_spec(dir, unit_file_name(family, resolved.0, "ttf"@))
    &&& u.woff2_path@ == join_path_spec(dir, unit_file_name(family, resolved.0, "woff2"@))
    &&& u.outcome is Pending
}

/// What launching the pipeline prepares: one pending unit per resolvable
/// variant, and the tokens whose resolution failed (each of those fails
/// only its own variant; the run goes on with the rest).
pub struct DownloadPlan {
    pub units: Vec<DownloadUnit>,
    pub failures: Vec<String>,
}

/// Resolves every entry of the family's token-to-URL table. An unmapped
/// token lands in `failures` and costs only that variant; every resolved
/// token becomes a pending unit with its staging (`.ttf`) and final
/// (`.woff2`) paths under `font_dir`.
pub fn plan_downloads(family: &FontFamily, family_name: &str, font_dir: &str) -> (r: DownloadPlan)
    ensures
        r.units@.len() == plan_resolved(pair_views(family.files@)).len(),
        forall|k: int|
            0 <= k < r.units@.len() ==> unit_matches(
                #[trigger] r.units@[k],
                plan_resolved(pair_views(family.files@))[k],
                family_name@,
                font_dir@,
            ),
        r.failures@.map_values(|t: String| t@) == plan_failures(pair_views(family.files@)),
{
    let ghost pairs = pair_views(family.files@);
    let mut units: Vec<DownloadUnit> = Vec::new();
    let mut failures: Vec<String> = Vec::new();
    let n = family.files.len();
    let mut i: usize = 0;
    proof {
        assert(pairs.take(0) =~= Seq::<(Seq<char>, Seq<char>)>::empty());
        assert(failures@.map_values(|t: String| t@) =~= plan_failures(pairs.take(0)));
    }
    while i < n
        invariant
            i <= n,
            n == family.files@.len(),
            pairs == pair_views(family.files@),
            units@.len() == plan_resolved(pairs.take(i as int)).len(),
            forall|k: int|
                0 <= k < units@.len() ==> unit_matches(
                    #[trigger] units@[k],
                    plan_resolved(pairs.take(i as int))[k],
                    family_name@,
                    font_dir@,
                ),
            failures@.map_values(|t: String| t@) == plan_failures(pairs.take(i as int)),
        decreases n - i,
    {
        let token = &family.files[i].0;
        let url = &family.files[i].1;
        proof {
            assert(pairs[i as int] == (family.files@[i as int].0@, family.files@[i as int].1@));
            assert(pairs.take(i as int + 1).drop_last() =~= pairs.take(i as int));
            assert(pairs.take(i as int + 1).last() == pairs[i as int]);
        }
        match transpile_font_weight(token.as_str()) {
            Ok(style) => {
                let ttf_name = font_file_name(family_name, style, "ttf");
                let woff2_name = font_file_name(family_name, style, "woff2");
                let unit = DownloadUnit {
                    style,
                    url: url.clone(),
                    ttf_path: join_path(font_dir, ttf_name.as_str()),
                    woff2_path: join_path(font_dir, woff2_name.as_str()),
                    outcome: Outcome::Pending,
                };
                units.push(unit);
            },
            Err(_) => {
                failures.push(token.clone());
                proof {
                    assert(failures@.map_values(|t: String| t@) =~= plan_failures(
                        pairs.take(i as int),
                    ).push(pairs[i as int].0));
                }
            },
        }
        i += 1;
    }
    proof {
        assert(pairs.take(n as int) =~= pairs);
    }
    DownloadPlan { units, failures }
}

/// The one piece of state every task shares: how many tasks have completed
/// (successfully or not) and which style tags fully succeeded, in completion
/// order. The fields stay private so that no caller can read-modify-write
/// them independently: mutation goes only through
/// [`Self::record_completion`], which the shell runs under its mutual
/// exclusion.
pub struct ProgressState {
    downloaded_count: u16,
    downloaded_files: Vec<FontStyles>,
}

impl ProgressState {
    /// How many tasks have completed, successfully or not.
    pub closed spec fn count(self) -> u16 {
        self.downloaded_count
    }

    /// The tags of the tasks that fully succeeded, in completion order.
    pub closed spec fn files(self) -> Seq<FontStyles> {
        self.downloaded_files@
    }

    /// There are never more recorded successes than completions.
    pub open spec fn wf(self) -> bool {
        self.files().len() <= self.count()
    }

    /// The state the pipeline starts from: nothing completed.
    pub fn new() -> (r: ProgressState)
        ensures
            r.count() == 0,
            r.files() == Seq::<FontStyles>::empty(),
            r.wf(),
    {
        ProgressState { downloaded_count: 0, downloaded_files: Vec::new() }
    }

    /// The single atomic step a completing task takes: the completion
    /// counter always grows by exactly one, and the style tag is appended
    /// exactly when the task fully succeeded.
    pub fn record_completion(&mut self, style: FontStyles, success: bool)
        requires
            old(self).count() < u16::MAX,
        ensures
            final(self).count() == old(self).count() + 1,
            final(self).files() == (if success {
                old(self).files().push(style)
            } else {
                old(self).files()
            }),
            old(self).wf() ==> final(self).wf(),
    {
        self.downloaded_count = self.downloaded_count + 1;
        if success {
            self.downloaded_files.push(style);
        }
    }

    /// The completion tally, for the advisory progress display.
    pub fn completed_count(&self) -> (r: u16)
        ensures
            r == self.count(),
    {
        self.downloaded_count
    }

    /// The succeeded tags, read once after the join: a copy, so that no
    /// observer ever sees a partially updated list.
    pub fn succeeded_tags(&self) -> (r: Vec<FontStyles>)
        ensures
            r@ == self.files(),
    {
        let n = self.downloaded_files.len();
        let mut r: Vec<FontStyles> = Vec::new();
        let mut i: usize = 0;
        proof {
            assert(self.files().take(0) =~= Seq::<FontStyles>::empty());
        }
        while i < n
            invariant
                i <= n,
                n == self.files().len(),
                r@ == self.files().take(i as int),
            decreases n - i,
        {
            r.push(self.downloaded_files[i]);
            proof {
                assert(self.files().take(i as int + 1) =~= self.files().take(i as int).push(
                    self.files()[i as int],
                ));
            }
            i += 1;
        }
        proof {
            assert(self.files().take(n as int) =~= self.files());
        }
        r
    }
}

/// The style tags of the successful completions, in completion order.
pub open spec fn succeeded_styles(events: Seq<(FontStyles, bool)>) -> Seq<FontStyles>
    decreases events.len(),
{
    if events.len() == 0 {
        Seq::empty()
    } else {
        let prefix = succeeded_styles(events.drop_last());
        if events.last().1 {
            prefix.push(events.last().0)
        } else {
            prefix
        }
    }
}

/// The pipeline's join point, as seen by the shared state: folding every
/// task's completion (its style tag and whether it fully succeeded, in
/// completion order) into a fresh state. After the join the counter equals
/// the number of completions exactly, however many of them failed, and the
/// recorded tags are exactly the successful ones.
pub fn join_results(events: &Vec<(FontStyles, bool)>) -> (r: ProgressState)
    requires
        events@.len() <= u16::MAX,
    ensures
        r.count() == events@.len(),
        r.files() == succeeded_styles(events@),
        r.wf(),
{
    let n = events.len();
    let mut state = ProgressState::new();
    let mut i: usize = 0;
    proof {
        assert(events@.take(0) =~= Seq::<(FontStyles, bool)>::empty());
    }
    while i < n
        invariant
            i <= n,
            n == events@.len(),
            n <= u16::MAX,
            state.count() == i,
            state.files() == succeeded_styles(events@.take(i as int)),
            state.wf(),
        decreases n - i,
    {
        let ev = events[i];
        proof {
            assert(events@.take(i as int + 1).drop_last() =~= events@.take(i as int));
            assert(events@.take(i as int + 1).last() == events@[i as int]);
        }
        state.record_completion(ev.0, ev.1);
        i += 1;
    }
    proof {
        assert(events@.take(n as int) =~= events@);
    }
    state
}

/// A recorded tag always comes from a successful completion: whatever tag
/// the final state holds, some task completed with that tag and succeeded.
pub proof fn lemma_succeeded_only_successes(events: Seq<(FontStyles, bool)>, k: int)
    requires
        0 <= k < succeeded_styles(events).len(),
    ensures
        exists|i: int|
            0 <= i < events.len() && events[i] == (succeeded_styles(events)[k], true),
    decreases events.len(),
{
    let succ = succeeded_styles(events);
    let prefix = succeeded_styles(events.drop_last());
    if events.last().1 && k == prefix.len() {
        assert(events[events.len() - 1] == (succ[k], true));
    } else {
        lemma_succeeded_only_successes(events.drop_last(), k);
        let i = choose|i: int|
            0 <= i < events.drop_last().len() && events.drop_last()[i] == (prefix[k], true);
        assert(events[i] == (succ[k], true));
    }
}

/// No two tasks carry the same style tag.
pub open spec fn distinct_styles(events: Seq<(FontStyles, bool)>) -> bool {
    forall|i: int, j: int|
        0 <= i < j < events.len() ==> (#[trigger] events[i]).0 != (#[trigger] events[j]).0
}

/// When every task carries a distinct style tag — as the planner produces
/// them from a table with distinct tokens — the recorded tags hold no
/// duplicate.
pub proof fn lemma_succeeded_distinct(events: Seq<(FontStyles, bool)>)
    requires
        distinct_styles(events),
    ensures
        forall|p: int, q: int|
            0 <= p < q < succeeded_styles(events).len() ==> succeeded_styles(events)[p]
                != succeeded_styles(events)[q],
    decreases events.len(),
{
    if events.len() > 0 {
        let prefix = events.drop_last();
        assert(distinct_styles(prefix)) by {
            assert(forall|i: int, j: int|
                0 <= i < j < prefix.len() ==> (#[trigger] prefix[i]).0 != (
                #[trigger] prefix[j]).0) by {
                assert(forall|i: int| 0 <= i < prefix.len() ==> prefix[i] == events[i]);
            }
        }
        lemma_succeeded_distinct(prefix);
        let succ = succeeded_styles(events);
        let succ_prefix = succeeded_styles(prefix);
        if events.last().1 {
            assert forall|p: int, q: int| 0 <= p < q < succ.len() implies succ[p] != succ[q] by {
                if q < succ_prefix.len() {
                    assert(succ[p] == succ_prefix[p] && succ[q] == succ_prefix[q]);
                } else {
                    assert(succ[q] == events.last().0);
                    assert(succ[p] == succ_prefix[p]);
                    if succ_prefix[p] == events.last().0 {
                        lemma_succeeded_only_successes(prefix, p);
                        let i = choose|i: int|
                            0 <= i < prefix.len() && prefix[i] == (succ_prefix[p], true);
                        assert(events[i].0 == events[events.len() - 1].0);
                        assert(false);
                    }
                }
            }
        }
    }
}

/// A resolved entry of the plan always comes from some table entry whose
/// token maps to its style.
pub proof fn lemma_plan_resolved_source(pairs: Seq<(Seq<char>, Seq<char>)>, k: int)
    requires
        0 <= k < plan_resolved(pairs).len(),
    ensures
        exists|i: int|
            0 <= i < pairs.len() && token_style((#[trigger] pairs[i]).0) == Some(
                plan_resolved(pairs)[k].0,
            ),
    decreases pairs.len(),
{
    let resolved = plan_resolved(pairs);
    let prefix = plan_resolved(pairs.drop_last());
    if token_style(pairs.last().0) is Some && k == prefix.len() {
        assert(token_style(pairs[pairs.len() - 1].0) == Some(resolved[k].0));
    } else {
        lemma_plan_resolved_source(pairs.drop_last(), k);
        let i = choose|i: int|
            0 <= i < pairs.drop_last().len() && token_style(
                (#[trigger] pairs.drop_last()[i]).0,
            ) == Some(prefix[k].0);
        assert(pairs[i] == pairs.drop_last()[i]);
        assert(token_style(pairs[i].0) == Some(resolved[k].0));
    }
}

/// A table whose tokens are pairwise distinct — a catalog's variant table
/// maps each token at most once — plans units with pairwise distinct style
/// tags, because the token table maps one-to-one onto the tags.
pub proof fn lemma_plan_styles_distinct(pairs: Seq<(Seq<char>, Seq<char>)>)
    requires
        forall|i: int, j: int|
            0 <= i < j < pairs.len() ==> (#[trigger] pairs[i]).0 != (#[trigger] pairs[j]).0,
    ensures
        forall|p: int, q: int|
            0 <= p < q < plan_resolved(pairs).len() ==> (#[trigger] plan_resolved(pairs)[p]).0 != (
            #[trigger] plan_resolved(pairs)[q]).0,
    decreases pairs.len(),
{
    if pairs.len() > 0 {
        let prefix = pairs.drop_last();
        assert(forall|i: int| 0 <= i < prefix.len() ==> prefix[i] == pairs[i]);
        lemma_plan_styles_distinct(prefix);
        let resolved = plan_resolved(pairs);
        let resolved_prefix = plan_resolved(prefix);
        if token_style(pairs.last().0) is Some {
            assert forall|p: int, q: int|
                0 <= p < q < resolved.len() implies (#[trigger] resolved[p]).0 != (
            #[trigger] resolved[q]).0 by {
                if q < resolved_prefix.len() {
                    assert(resolved[p] == resolved_prefix[p] && resolved[q] == resolved_prefix[q]);
                } else {
                    assert(resolved[q] == (token_style(pairs.last().0)->Some_0, pairs.last().1));
                    assert(resolved[p] == resolved_prefix[p]);
                    if resolved_prefix[p].0 == resolved[q].0 {
                        lemma_plan_resolved_source(prefix, p);
                        let i = choose|i: int|
                            0 <= i < prefix.len() && token_style((#[trigger] prefix[i]).0) == Some(
                                resolved_prefix[p].0,
                            );
                        lemma_token_style_injective(pairs[i].0, pairs[pairs.len() - 1].0);
                        assert(false);
                    }
                }
            }
        }
    }
}

/// The advisory progress line the display driver shows while tasks run.
pub fn progress_message(completed: u16, total: usize) -> (r: String)
    ensures
        r@ == "Converting fonts... ("@ + dec_of(completed as nat) + "/"@ + dec_of(total as nat)
            + ")"@,
{
    let mut r = String::from_str("Converting fonts... (");
    let done = u64_to_string(completed as u64);
    r.append(done.as_str());
    r.append("/");
    let all = u64_to_string(total as u64);
    r.append(all.as_str());
    r.append(")");
    proof {
        assert(r@ =~= "Converting fonts... ("@ + dec_of(completed as nat) + "/"@ + dec_of(
            total as nat,
        ) + ")"@);
    }
    r
}

/// The run's closing summary of how many variants fully succeeded.
pub fn summary_message(converted: usize) -> (r: String)
    ensures
        r@ == "Converted "@ + dec_of(converted as nat) + " fonts"@,
{
    let mut r = String::from_str("Converted ");
    let count = u64_to_string(converted as u64);
    r.append(count.as_str());
    r.append(" fonts");
    proof {
        assert(r@ =~= "Converted "@ + dec_of(converted as nat) + " fonts"@);
    }
    r
}

} // verus!
