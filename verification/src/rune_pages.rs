//! Putting one rune page of this application into the client's store.
//!
//! The store holds a limited number of pages and knows neither "replace" nor
//! "owner". Pages of this application are told by the first characters of
//! their name. Before a page is created every such page is deleted, so that
//! one at most exists afterwards; where the store is full, one page of the
//! player's own is given up to make room, once.
//!
//! The protocol is a sequence of requests, each decided by the answer to the
//! one before. `create_rune_page` gives the first step; the caller sends what
//! a step asks for and hands the reply to `RunePageImport::on_reply`.

use crate::lcu::{
    api_failure, delete_rune_page, describe_failure, is_success, status_is_success,
    ExistingRunePage, LcuError, LcuReply, LcuResponse,
};
use crate::text::{contains, has_substring, starts_with, str_concat};
use vstd::prelude::*;
use vstd::string::*;

verus! {

/// What the name of a rune page of this application begins with.
pub const FOCUS_RUNE_PAGE_PREFIX: &'static str = "\u{26a1}";

/// Whether a page bears the mark of this application.
pub open spec fn is_focus_page(page: ExistingRunePage) -> bool {
    FOCUS_RUNE_PAGE_PREFIX@.is_prefix_of(page.name@)
}

/// Whether a page is deleted before the new one is created: it bears the
/// mark and the store lets it go.
pub open spec fn is_stale(page: ExistingRunePage) -> bool {
    is_focus_page(page) && page.is_deletable
}

/// Whether a page may be given up to make room: it is the player's own, and
/// the store lets it be changed and deleted.
pub open spec fn can_make_room(page: ExistingRunePage) -> bool {
    page.is_deletable && page.is_editable && !is_focus_page(page)
}

/// The least index from `from` on of a stale page, or the number of pages
/// where there is none.
pub open spec fn next_stale(pages: Seq<ExistingRunePage>, from: int) -> int
    decreases pages.len() - from,
{
    if from < 0 || from >= pages.len() {
        pages.len() as int
    } else if is_stale(pages[from]) {
        from
    } else {
        next_stale(pages, from + 1)
    }
}

/// The least index from `from` on of a page that may be given up, or the
/// number of pages where there is none.
pub open spec fn next_room(pages: Seq<ExistingRunePage>, from: int) -> int
    decreases pages.len() - from,
{
    if from < 0 || from >= pages.len() {
        pages.len() as int
    } else if can_make_room(pages[from]) {
        from
    } else {
        next_room(pages, from + 1)
    }
}

/// Where the protocol stands: which answer it waits for.
#[derive(Debug, Clone, Copy, PartialEq, Eq, Structural)]
pub enum Stage {
    /// The deletion of the stale page at this index was asked for.
    Cleaning(usize),
    /// The creation of the new page was asked for.
    Creating,
    /// The store was full; the deletion of the page at this index was asked
    /// for to make room.
    Freeing(usize),
    /// The creation of the new page was asked for a second time.
    Retrying,
}

/// What the caller is asked to do next.
#[derive(Debug, Clone, Copy, PartialEq, Eq, Structural)]
pub enum RunePageAction {
    /// Delete the page with this id.
    DeletePage(i64),
    /// Create the new page.
    CreatePage,
}

/// A protocol run that waits for an answer.
#[derive(Debug, Clone, PartialEq, Eq)]
pub struct RunePageImport {
    /// The pages as they were listed before the first request.
    pub pages: Vec<ExistingRunePage>,
    pub stage: Stage,
}

/// A step of the protocol: a request to send, with the run that awaits its
/// answer, or the end.
#[derive(Debug, PartialEq, Eq)]
pub enum RunePageStep {
    Send(RunePageAction, RunePageImport),
    Done(Result<(), LcuError>),
}

/// What an answer says, as far as the protocol tells answers apart.
#[derive(Debug, Clone, Copy, PartialEq, Eq, Structural)]
pub enum Verdict {
    /// No answer came.
    Unreachable,
    /// The request was carried out.
    Carried,
    /// The request was refused, and the answer reads as "the store is full".
    Full,
    /// The request was refused for another reason.
    Refused,
}

/// Whether a refusal reads as "the store is full". The store gives no code
/// for this: the words in the body are looked for, and status 400 is taken
/// for it too.
pub open spec fn capacity_signal(response: LcuResponse) -> bool {
    has_substring(response.body@, "Max pages reached"@) || response.status == 400
}

/// What a reply says.
pub open spec fn verdict(reply: LcuReply) -> Verdict {
    match reply {
        LcuReply::Failed(_) => Verdict::Unreachable,
        LcuReply::Answered(response) => if is_success(response.status) {
            Verdict::Carried
        } else if capacity_signal(response) {
            Verdict::Full
        } else {
            Verdict::Refused
        },
    }
}

/// How the protocol goes on.
pub enum Planned {
    /// With the request of this stage.
    Continue(Stage),
    /// It ends: the page is in the store.
    Succeed,
    /// It ends with an error.
    Fail,
}

/// How the protocol goes on once the pages up to `from` are dealt with: with
/// the deletion of the next stale page, or, where none is left, with the
/// creation of the new page.
pub open spec fn clean_from(pages: Seq<ExistingRunePage>, from: int) -> Stage {
    let index: int = next_stale(pages, from);
    if index < pages.len() {
        Stage::Cleaning(index as usize)
    } else {
        Stage::Creating
    }
}

/// How the protocol goes on from `stage` when the answer says `verdict`.
///
/// A deletion that is not carried out ends the run. A creation that the full
/// store refuses is tried once more after the first page that may be given up
/// is deleted; where there is no such page, or the second creation is not
/// carried out either, the run ends with an error.
pub open spec fn plan(pages: Seq<ExistingRunePage>, stage: Stage, verdict: Verdict) -> Planned {
    match stage {
        Stage::Cleaning(index) => if verdict is Carried {
            Planned::Continue(clean_from(pages, index + 1))
        } else {
            Planned::Fail
        },
        Stage::Creating => match verdict {
            Verdict::Carried => Planned::Succeed,
            Verdict::Full => {
                let index: int = next_room(pages, 0);
                if index < pages.len() {
                    Planned::Continue(Stage::Freeing(index as usize))
                } else {
                    Planned::Fail
                }
            },
            _ => Planned::Fail,
        },
        Stage::Freeing(_) => if verdict is Carried {
            Planned::Continue(Stage::Retrying)
        } else {
            Planned::Fail
        },
        Stage::Retrying => if verdict is Carried {
            Planned::Succeed
        } else {
            Planned::Fail
        },
    }
}

/// The request that a stage waits for the answer to.
pub open spec fn action_of(pages: Seq<ExistingRunePage>, stage: Stage) -> RunePageAction {
    match stage {
        Stage::Cleaning(index) => RunePageAction::DeletePage(pages[index as int].id),
        Stage::Freeing(index) => RunePageAction::DeletePage(pages[index as int].id),
        Stage::Creating => RunePageAction::CreatePage,
        Stage::Retrying => RunePageAction::CreatePage,
    }
}

/// Whether a stage fits the listed pages: a page that is being deleted is one
/// of them, and of the kind that this stage deletes.
pub open spec fn stage_fits(pages: Seq<ExistingRunePage>, stage: Stage) -> bool {
    match stage {
        Stage::Cleaning(index) => index < pages.len() && is_stale(pages[index as int]),
        Stage::Freeing(index) => index < pages.len() && can_make_room(pages[index as int]),
        Stage::Creating => true,
        Stage::Retrying => true,
    }
}

/// The error that ends a run at `stage` on `reply`.
pub open spec fn failure_meaning(stage: Stage, reply: LcuReply, error: LcuError) -> bool {
    match reply {
        LcuReply::Failed(reason) => error == LcuError::HttpError(reason),
        LcuReply::Answered(response) => {
            &&& error matches LcuError::ApiError(detail)
            &&& detail@ == match stage {
                Stage::Cleaning(_) => api_failure("Failed to delete rune page"@, response),
                Stage::Freeing(_) => api_failure("Failed to delete rune page"@, response),
                Stage::Creating => if capacity_signal(response) {
                    "Max rune pages reached and no deletable pages found"@
                } else {
                    api_failure("Failed to create rune page"@, response)
                },
                Stage::Retrying => "Failed to create rune page after deleting old one: "@
                    + response.body@,
            }
        },
    }
}

impl RunePageImport {
    /// Whether the run is one that the protocol can be in.
    pub open spec fn wf(self) -> bool {
        stage_fits(self.pages@, self.stage)
    }

    /// What `out` must be as the step that follows `reply`.
    pub open spec fn step_meaning(self, reply: LcuReply, out: RunePageStep) -> bool {
        match plan(self.pages@, self.stage, verdict(reply)) {
            Planned::Continue(stage) => out == RunePageStep::Send(
                action_of(self.pages@, stage),
                RunePageImport { pages: self.pages, stage },
            ),
            Planned::Succeed => out == RunePageStep::Done(Ok(())),
            Planned::Fail => {
                &&& out matches RunePageStep::Done(Err(error))
                &&& failure_meaning(self.stage, reply, error)
            },
        }
    }
}

/// Whether a step is one that the protocol can take.
pub open spec fn step_wf(step: RunePageStep) -> bool {
    step matches RunePageStep::Send(action, run) ==> run.wf() && action == action_of(
        run.pages@,
        run.stage,
    )
}

/// `next_stale` gives the first stale page from `from` on.
pub proof fn lemma_next_stale(pages: Seq<ExistingRunePage>, from: int)
    requires
        0 <= from <= pages.len(),
    ensures
        from <= next_stale(pages, from) <= pages.len(),
        next_stale(pages, from) < pages.len() ==> is_stale(pages[next_stale(pages, from)]),
        forall|k: int| from <= k < next_stale(pages, from) ==> !is_stale(#[trigger] pages[k]),
    decreases pages.len() - from,
{
    if from < pages.len() && !is_stale(pages[from]) {
        lemma_next_stale(pages, from + 1);
    }
}

/// `next_room` gives the first page from `from` on that may be given up.
pub proof fn lemma_next_room(pages: Seq<ExistingRunePage>, from: int)
    requires
        0 <= from <= pages.len(),
    ensures
        from <= next_room(pages, from) <= pages.len(),
        next_room(pages, from) < pages.len() ==> can_make_room(pages[next_room(pages, from)]),
        forall|k: int| from <= k < next_room(pages, from) ==> !can_make_room(#[trigger] pages[k]),
    decreases pages.len() - from,
{
    if from < pages.len() && !can_make_room(pages[from]) {
        lemma_next_room(pages, from + 1);
    }
}

/// Whether a page bears the mark of this application.
pub fn page_is_focus(page: &ExistingRunePage) -> (yes: bool)
    ensures
        yes == is_focus_page(*page),
{
    starts_with(page.name.as_str(), FOCUS_RUNE_PAGE_PREFIX)
}

fn find_stale(pages: &Vec<ExistingRunePage>, from: usize) -> (index: usize)
    requires
        from <= pages.len(),
    ensures
        index == next_stale(pages@, from as int),
        index <= pages.len(),
{
    let mut i: usize = from;
    while i < pages.len()
        invariant
            from <= i <= pages.len(),
            next_stale(pages@, from as int) == next_stale(pages@, i as int),
        decreases pages.len() - i,
    {
        if pages[i].is_deletable && page_is_focus(&pages[i]) {
            return i;
        }
        i += 1;
    }
    i
}

fn find_room(pages: &Vec<ExistingRunePage>, from: usize) -> (index: usize)
    requires
        from <= pages.len(),
    ensures
        index == next_room(pages@, from as int),
        index <= pages.len(),
{
    let mut i: usize = from;
    while i < pages.len()
        invariant
            from <= i <= pages.len(),
            next_room(pages@, from as int) == next_room(pages@, i as int),
        decreases pages.len() - i,
    {
        if pages[i].is_deletable && pages[i].is_editable && !page_is_focus(&pages[i]) {
            return i;
        }
        i += 1;
    }
    i
}

fn send(pages: Vec<ExistingRunePage>, stage: Stage) -> (out: RunePageStep)
    requires
        stage_fits(pages@, stage),
    ensures
        out == RunePageStep::Send(action_of(pages@, stage), RunePageImport { pages, stage }),
        step_wf(out),
{
    let action = match stage {
        Stage::Cleaning(index) => RunePageAction::DeletePage(pages[index].id),
        Stage::Freeing(index) => RunePageAction::DeletePage(pages[index].id),
        Stage::Creating => RunePageAction::CreatePage,
        Stage::Retrying => RunePageAction::CreatePage,
    };
    RunePageStep::Send(action, RunePageImport { pages, stage })
}

fn clean(pages: Vec<ExistingRunePage>, from: usize) -> (out: RunePageStep)
    requires
        from <= pages.len(),
    ensures
        out == RunePageStep::Send(
            action_of(pages@, clean_from(pages@, from as int)),
            RunePageImport { pages, stage: clean_from(pages@, from as int) },
        ),
        step_wf(out),
{
    proof {
        lemma_next_stale(pages@, from as int);
    }
    let index: usize = find_stale(&pages, from);
    if index < pages.len() {
        send(pages, Stage::Cleaning(index))
    } else {
        send(pages, Stage::Creating)
    }
}

/// Begins the protocol that puts one page of this application into the
/// store. `pages` is the list of the pages that the store holds now. The
/// first step asks for the deletion of the first stale page or, where there
/// is none, for the creation of the new page.
pub fn create_rune_page(pages: Vec<ExistingRunePage>) -> (out: RunePageStep)
    ensures
        out == RunePageStep::Send(
            action_of(pages@, clean_from(pages@, 0)),
            RunePageImport { pages, stage: clean_from(pages@, 0) },
        ),
        step_wf(out),
{
    clean(pages, 0)
}

impl RunePageImport {
    /// Takes the answer to the request that this run waits for and gives the
    /// step that follows.
    pub fn on_reply(self, reply: LcuReply) -> (out: RunePageStep)
        requires
            self.wf(),
        ensures
            self.step_meaning(reply, out),
            step_wf(out),
    {
        match self.stage {
            Stage::Cleaning(index) => match delete_rune_page(reply) {
                Ok(()) => clean(self.pages, index + 1),
                Err(error) => RunePageStep::Done(Err(error)),
            },
            Stage::Freeing(_) => match delete_rune_page(reply) {
                Ok(()) => send(self.pages, Stage::Retrying),
                Err(error) => RunePageStep::Done(Err(error)),
            },
            Stage::Creating => match reply {
                LcuReply::Failed(reason) => RunePageStep::Done(Err(LcuError::HttpError(reason))),
                LcuReply::Answered(response) => {
                    if status_is_success(response.status) {
                        RunePageStep::Done(Ok(()))
                    } else if contains(response.body.as_str(), "Max pages reached")
                        || response.status == 400 {
                        proof {
                            lemma_next_room(self.pages@, 0);
                        }
                        let index: usize = find_room(&self.pages, 0);
                        if index < self.pages.len() {
                            send(self.pages, Stage::Freeing(index))
                        } else {
                            RunePageStep::Done(
                                Err(
                                    LcuError::ApiError(
                                        String::from_str(
                                            "Max rune pages reached and no deletable pages found",
                                        ),
                                    ),
                                ),
                            )
                        }
                    } else {
                        let detail = describe_failure("Failed to create rune page", &response);
                        RunePageStep::Done(Err(LcuError::ApiError(detail)))
                    }
                },
            },
            Stage::Retrying => match reply {
                LcuReply::Failed(reason) => RunePageStep::Done(Err(LcuError::HttpError(reason))),
                LcuReply::Answered(response) => {
                    if status_is_success(response.status) {
                        RunePageStep::Done(Ok(()))
                    } else {
                        RunePageStep::Done(
                            Err(
                                LcuError::ApiError(
                                    str_concat(
                                        "Failed to create rune page after deleting old one: ",
                                        response.body.as_str(),
                                    ),
                                ),
                            ),
                        )
                    }
                },
            },
        }
    }
}

/// The store once the pages with the given id are gone.
pub open spec fn store_without(store: Seq<ExistingRunePage>, id: i64) -> Seq<ExistingRunePage> {
    store.filter(|page: ExistingRunePage| page.id != id)
}

/// What carrying out `action` makes of the store. `created` is the page that
/// a creation adds.
pub open spec fn store_after(
    store: Seq<ExistingRunePage>,
    action: RunePageAction,
    created: ExistingRunePage,
) -> Seq<ExistingRunePage> {
    match action {
        RunePageAction::DeletePage(id) => store_without(store, id),
        RunePageAction::CreatePage => store.push(created),
    }
}

/// How many pages of the store bear the mark of this application.
pub open spec fn focus_pages(store: Seq<ExistingRunePage>) -> nat {
    store.filter(|page: ExistingRunePage| is_focus_page(page)).len()
}

/// The protocol run against a store, from `stage` on. `verdicts` holds what
/// the store answers, request by request; a request that is carried out
/// changes the store, another leaves it as it is. The result says how the run
/// ended (`None` while it still waits for an answer) and what the store holds
/// then.
pub open spec fn run(
    pages: Seq<ExistingRunePage>,
    stage: Stage,
    store: Seq<ExistingRunePage>,
    verdicts: Seq<Verdict>,
    created: ExistingRunePage,
) -> (Option<bool>, Seq<ExistingRunePage>)
    decreases verdicts.len(),
{
    if verdicts.len() == 0 {
        (None, store)
    } else {
        let answered = verdicts.first();
        let store = if answered is Carried {
            store_after(store, action_of(pages, stage), created)
        } else {
            store
        };
        match plan(pages, stage, answered) {
            Planned::Continue(next) => run(pages, next, store, verdicts.drop_first(), created),
            Planned::Succeed => (Some(true), store),
            Planned::Fail => (Some(false), store),
        }
    }
}

/// What holds of the store while the run is at `stage`: a page with the mark
/// is still in it only if its deletion is still to come.
pub open spec fn store_fits(
    pages: Seq<ExistingRunePage>,
    stage: Stage,
    store: Seq<ExistingRunePage>,
) -> bool {
    match stage {
        Stage::Cleaning(index) => forall|page: ExistingRunePage|
            #[trigger] store.contains(page) && is_focus_page(page) ==> exists|k: int|
                index <= k < pages.len() && is_stale(pages[k]) && (#[trigger] pages[k]).id
                    == page.id,
        _ => forall|page: ExistingRunePage| #[trigger] store.contains(page) ==> !is_focus_page(page),
    }
}

proof fn lemma_store_without(store: Seq<ExistingRunePage>, id: i64, page: ExistingRunePage)
    requires
        store_without(store, id).contains(page),
    ensures
        store.contains(page),
        page.id != id,
{
    let keep = |page: ExistingRunePage| page.id != id;
    store.lemma_filter_contains_rev(keep, page);
    let at = choose|at: int| 0 <= at < store.filter(keep).len() && store.filter(keep)[at] == page;
    store.lemma_filter_pred(keep, at);
}

proof fn lemma_focus_pages_after_creation(store: Seq<ExistingRunePage>, created: ExistingRunePage)
    requires
        forall|page: ExistingRunePage| #[trigger] store.contains(page) ==> !is_focus_page(page),
    ensures
        focus_pages(store.push(created)) == if is_focus_page(created) {
            1nat
        } else {
            0nat
        },
{
    let marked = |page: ExistingRunePage| is_focus_page(page);
    if store.filter(marked).len() > 0 {
        store.lemma_filter_pred(marked, 0);
        store.lemma_filter_contains_rev(marked, store.filter(marked)[0]);
    }
    reveal(Seq::filter);
    assert(store.push(created).drop_last() =~= store);
}

proof fn lemma_run_keeps_one(
    pages: Seq<ExistingRunePage>,
    stage: Stage,
    store: Seq<ExistingRunePage>,
    verdicts: Seq<Verdict>,
    created: ExistingRunePage,
)
    requires
        pages.len() <= usize::MAX,
        stage_fits(pages, stage),
        store_fits(pages, stage, store),
        run(pages, stage, store, verdicts, created).0 == Some(true),
    ensures
        focus_pages(run(pages, stage, store, verdicts, created).1) == if is_focus_page(created) {
            1nat
        } else {
            0nat
        },
    decreases verdicts.len(),
{
    let answered = verdicts.first();
    let rest = verdicts.drop_first();
    match stage {
        Stage::Cleaning(index) => {
            let gone: i64 = pages[index as int].id;
            let after = store_without(store, gone);
            let next = clean_from(pages, index + 1);
            lemma_next_stale(pages, index + 1);
            let reached: int = next_stale(pages, index + 1);
            assert forall|page: ExistingRunePage| #[trigger]
                after.contains(page) && is_focus_page(page) implies exists|k: int|
                reached <= k < pages.len() && is_stale(pages[k]) && (#[trigger] pages[k]).id
                    == page.id by {
                lemma_store_without(store, gone, page);
                let k = choose|k: int|
                    index <= k < pages.len() && is_stale(pages[k]) && (#[trigger] pages[k]).id
                        == page.id;
                assert(k != index);
                assert(k >= reached);
            }
            assert(store_fits(pages, next, after));
            lemma_run_keeps_one(pages, next, after, rest, created);
        },
        Stage::Creating => {
            if answered is Carried {
                lemma_focus_pages_after_creation(store, created);
            } else {
                lemma_next_room(pages, 0);
                let index: int = next_room(pages, 0);
                lemma_run_keeps_one(pages, Stage::Freeing(index as usize), store, rest, created);
            }
        },
        Stage::Freeing(index) => {
            let after = store_without(store, pages[index as int].id);
            assert forall|page: ExistingRunePage| #[trigger] after.contains(page) implies !is_focus_page(
                page,
            ) by {
                lemma_store_without(store, pages[index as int].id, page);
            }
            lemma_run_keeps_one(pages, Stage::Retrying, after, rest, created);
        },
        Stage::Retrying => {
            lemma_focus_pages_after_creation(store, created);
        },
    }
}

/// One page of this application at most is in the store after the protocol
/// has succeeded, however many there were before.
///
/// The store is taken to hold the pages that were listed, to lose the pages
/// with the given id when a deletion is carried out, and to gain `created`
/// when a creation is carried out. The law is stated for stores in which
/// every page that bears the mark can be deleted: a marked page that the
/// store does not let go stays beside the new one.
pub proof fn lemma_singleton_after_success(
    pages: Seq<ExistingRunePage>,
    verdicts: Seq<Verdict>,
    created: ExistingRunePage,
)
    requires
        pages.len() <= usize::MAX,
        forall|k: int|
            0 <= k < pages.len() && is_focus_page(#[trigger] pages[k]) ==> pages[k].is_deletable,
        run(pages, clean_from(pages, 0), pages, verdicts, created).0 == Some(true),
    ensures
        focus_pages(run(pages, clean_from(pages, 0), pages, verdicts, created).1) <= 1,
        focus_pages(run(pages, clean_from(pages, 0), pages, verdicts, created).1) == 1
            <==> is_focus_page(created),
{
    lemma_next_stale(pages, 0);
    let first = clean_from(pages, 0);
    let reached: int = next_stale(pages, 0);
    assert forall|page: ExistingRunePage| #[trigger]
        pages.contains(page) && is_focus_page(page) implies exists|k: int|
        reached <= k < pages.len() && is_stale(pages[k]) && (#[trigger] pages[k]).id
            == page.id by {
        let k = choose|k: int| 0 <= k < pages.len() && pages[k] == page;
        assert(is_stale(pages[k]));
        assert(k >= reached);
    }
    assert(store_fits(pages, first, pages));
    lemma_run_keeps_one(pages, first, pages, verdicts, created);
}

} // verus!
