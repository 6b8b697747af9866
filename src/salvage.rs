use vstd::prelude::*;
use crate::pipeline::{FailReason, Outcome};
use crate::text::{contains, lower_of, lowercase, text_contains};
use crate::ticket::{ScreenInfo, ScreenTicketInfo};

verus! {

/// Delay between two scans of the project when nothing could be bought.
pub const RESCAN_DELAY_MS: u64 = 2000;

/// Delay before fetching the project again after a failed fetch.
pub const REFETCH_DELAY_MS: u64 = 1000;

/// What the salvage mode reads of a project on each scan.
#[derive(Clone, Debug)]
pub struct ProjectSnapshot {
    pub sale_flag_number: usize,
    pub id_bind: usize,
    pub screen_list: Vec<ScreenInfo>,
}

/// Why the salvage mode gives up on a project.
#[derive(Clone, Copy, Debug, PartialEq, Eq, Structural)]
pub enum SalvageStop {
    /// The project is no longer on sale.
    NotOnSale,
    /// Tickets without real-name binding are not handled.
    UnsupportedBindType,
}

/// A session / ticket-type pair to try, by position and by id.
#[derive(Clone, Copy, Debug, PartialEq, Eq, Structural)]
pub struct Candidate {
    pub screen_index: usize,
    pub ticket_index: usize,
    pub screen_id: usize,
    pub ticket_id: usize,
}

/// What the salvage mode does next.
#[derive(Clone, Debug)]
pub enum SalvageMove {
    /// Run the pipeline on the candidate at this position.
    Run(usize),
    /// Wait, then fetch the project again.
    Rescan { delay_ms: u64 },
    /// The task ends with this result.
    Stop(Outcome),
}

/// Lower-cased views of the words.
pub open spec fn lowered(words: Seq<String>) -> Seq<Seq<char>> {
    Seq::new(words.len(), |i: int| lower_of(words[i]@))
}

/// Some word stands in the title or in the description.
pub open spec fn word_hit(title: Seq<char>, desc: Seq<char>, words: Seq<Seq<char>>) -> bool {
    exists|w: int| 0 <= w < words.len() && (contains(title, words[w]) || contains(desc, words[w]))
}

/// A ticket type whose session name or description holds a skip word, case aside.
pub open spec fn skipped(t: ScreenTicketInfo, skip_words: Option<Vec<String>>) -> bool {
    match skip_words {
        None => false,
        Some(ws) => word_hit(lower_of(t.screen_name@), lower_of(t.desc@), lowered(ws@)),
    }
}

/// Whether one of `words` stands in `title` or in `desc`; all three are
/// taken as given, already lower-cased.
pub fn hits_any_word(title: &str, desc: &str, words: &Vec<String>) -> (r: bool)
    ensures
        r == exists|w: int| 0 <= w < words@.len() && (contains(title@, words@[w]@) || contains(desc@, words@[w]@)),
{
    let mut i: usize = 0;
    while i < words.len()
        invariant
            i <= words@.len(),
            forall|w: int| 0 <= w < i ==> !(contains(title@, words@[w]@) || contains(desc@, words@[w]@)),
        decreases words@.len() - i,
    {
        let w = words[i].as_str();
        if text_contains(title, w) || text_contains(desc, w) {
            return true;
        }
        i = i + 1;
    }
    false
}

/// Whether a ticket type is filtered out by the skip words.
pub fn should_skip_ticket(ticket_data: &ScreenTicketInfo, skip_words: &Option<Vec<String>>) -> (r: bool)
    ensures
        r == skipped(*ticket_data, *skip_words),
{
    match skip_words {
        None => false,
        Some(words) => {
            let title = lowercase(ticket_data.screen_name.as_str());
            let desc = lowercase(ticket_data.desc.as_str());
            let mut low: Vec<String> = Vec::new();
            let mut i: usize = 0;
            while i < words.len()
                invariant
                    i <= words@.len(),
                    low@.len() == i,
                    forall|k: int| 0 <= k < i ==> low@[k]@ == lower_of(words@[k]@),
                decreases words@.len() - i,
            {
                low.push(lowercase(words[i].as_str()));
                i = i + 1;
            }
            let r = hits_any_word(title.as_str(), desc.as_str(), &low);
            proof {
                let lw = lowered(words@);
                if r {
                    let w = choose|w: int| 0 <= w < low@.len() && (contains(title@, low@[w]@) || contains(desc@, low@[w]@));
                    assert(low@[w]@ == lw[w]);
                } else {
                    assert forall|w: int| 0 <= w < lw.len() implies !(contains(title@, lw[w]) || contains(desc@, lw[w])) by {
                        assert(low@[w]@ == lw[w]);
                    }
                }
            }
            r
        },
    }
}

/// A ticket type that the salvage mode tries.
pub open spec fn eligible(t: ScreenTicketInfo, skip_words: Option<Vec<String>>) -> bool {
    t.clickable && !skipped(t, skip_words)
}

pub open spec fn candidate_at(screens: Seq<ScreenInfo>, si: int, ti: int) -> Candidate {
    Candidate {
        screen_index: si as usize,
        ticket_index: ti as usize,
        screen_id: screens[si].id,
        ticket_id: screens[si].ticket_list@[ti].id,
    }
}

/// Candidates among the first `n` ticket types of session `si`, in order.
pub open spec fn ticket_candidates(screens: Seq<ScreenInfo>, si: int, n: int, skip_words: Option<Vec<String>>) -> Seq<Candidate>
    decreases n,
{
    if n <= 0 {
        Seq::empty()
    } else {
        let prev = ticket_candidates(screens, si, n - 1, skip_words);
        if eligible(screens[si].ticket_list@[n - 1], skip_words) {
            prev.push(candidate_at(screens, si, n - 1))
        } else {
            prev
        }
    }
}

/// Candidates of the first `k` sessions, session by session, in order;
/// sessions that cannot be bought contribute none.
pub open spec fn candidates_upto(screens: Seq<ScreenInfo>, k: int, skip_words: Option<Vec<String>>) -> Seq<Candidate>
    decreases k,
{
    if k <= 0 {
        Seq::empty()
    } else {
        let prev = candidates_upto(screens, k - 1, skip_words);
        if screens[k - 1].clickable {
            prev.add(ticket_candidates(screens, k - 1, screens[k - 1].ticket_list@.len() as int, skip_words))
        } else {
            prev
        }
    }
}

/// Every candidate names a session that can be bought and, in it, a ticket
/// type that can be bought and that no skip word filters out.
pub open spec fn all_eligible(screens: Seq<ScreenInfo>, c: Seq<Candidate>, skip_words: Option<Vec<String>>) -> bool {
    forall|j: int| 0 <= j < c.len() ==> {
        let x = #[trigger] c[j];
        &&& 0 <= x.screen_index < screens.len()
        &&& screens[x.screen_index as int].clickable
        &&& 0 <= x.ticket_index < screens[x.screen_index as int].ticket_list@.len()
        &&& eligible(screens[x.screen_index as int].ticket_list@[x.ticket_index as int], skip_words)
        &&& x == candidate_at(screens, x.screen_index as int, x.ticket_index as int)
    }
}

proof fn lemma_ticket_candidates_eligible(screens: Seq<ScreenInfo>, si: int, n: int, skip_words: Option<Vec<String>>)
    requires
        0 <= si < screens.len(),
        screens[si].clickable,
        n <= screens[si].ticket_list@.len(),
        si <= usize::MAX,
        screens[si].ticket_list@.len() <= usize::MAX,
    ensures
        all_eligible(screens, ticket_candidates(screens, si, n, skip_words), skip_words),
        forall|j: int| 0 <= j < ticket_candidates(screens, si, n, skip_words).len()
            ==> #[trigger] ticket_candidates(screens, si, n, skip_words)[j].screen_index == si,
    decreases n,
{
    if n > 0 {
        lemma_ticket_candidates_eligible(screens, si, n - 1, skip_words);
    }
}

/// The salvage scan tries only sessions and ticket types that can be bought
/// and that no skip word filters out: a filtered ticket type never gets a token request.
pub proof fn lemma_candidates_eligible(screens: Seq<ScreenInfo>, k: int, skip_words: Option<Vec<String>>)
    requires
        k <= screens.len(),
        screens.len() <= usize::MAX,
        forall|i: int| 0 <= i < screens.len() ==> (#[trigger] screens[i]).ticket_list@.len() <= usize::MAX,
    ensures
        all_eligible(screens, candidates_upto(screens, k, skip_words), skip_words),
    decreases k,
{
    if k > 0 {
        lemma_candidates_eligible(screens, k - 1, skip_words);
        if screens[k - 1].clickable {
            let n = screens[k - 1].ticket_list@.len() as int;
            lemma_ticket_candidates_eligible(screens, k - 1, n, skip_words);
            let a = candidates_upto(screens, k - 1, skip_words);
            let b = ticket_candidates(screens, k - 1, n, skip_words);
            assert forall|j: int| 0 <= j < a.add(b).len() implies {
                let x = #[trigger] a.add(b)[j];
                &&& 0 <= x.screen_index < screens.len()
                &&& screens[x.screen_index as int].clickable
                &&& 0 <= x.ticket_index < screens[x.screen_index as int].ticket_list@.len()
                &&& eligible(screens[x.screen_index as int].ticket_list@[x.ticket_index as int], skip_words)
                &&& x == candidate_at(screens, x.screen_index as int, x.ticket_index as int)
            } by {
                if j < a.len() {
                    assert(a.add(b)[j] == a[j]);
                } else {
                    assert(a.add(b)[j] == b[j - a.len()]);
                }
            }
        }
    }
}

/// The project's sale flag allows buying.
pub open spec fn on_sale(flag: usize) -> bool {
    flag == 8 || flag == 2
}

/// The project binds tickets to named buyers.
pub open spec fn bind_supported(id_bind: usize) -> bool {
    id_bind == 1 || id_bind == 2
}

/// The candidates of one salvage scan, or why the project is given up.
pub fn salvage_candidates(project: &ProjectSnapshot, skip_words: &Option<Vec<String>>) -> (r: Result<Vec<Candidate>, SalvageStop>)
    ensures
        !on_sale(project.sale_flag_number) ==> r == Err::<Vec<Candidate>, SalvageStop>(SalvageStop::NotOnSale),
        on_sale(project.sale_flag_number) && !bind_supported(project.id_bind)
            ==> r == Err::<Vec<Candidate>, SalvageStop>(SalvageStop::UnsupportedBindType),
        on_sale(project.sale_flag_number) && bind_supported(project.id_bind) ==> r is Ok
            && r->Ok_0@ == candidates_upto(project.screen_list@, project.screen_list@.len() as int, *skip_words),
{
    if !(project.sale_flag_number == 8 || project.sale_flag_number == 2) {
        return Err(SalvageStop::NotOnSale);
    }
    if !(project.id_bind == 1 || project.id_bind == 2) {
        return Err(SalvageStop::UnsupportedBindType);
    }
    let screens = &project.screen_list;
    let mut out: Vec<Candidate> = Vec::new();
    let mut si: usize = 0;
    while si < screens.len()
        invariant
            si <= screens@.len(),
            out@ == candidates_upto(screens@, si as int, *skip_words),
        decreases screens@.len() - si,
    {
        let screen = &screens[si];
        if screen.clickable {
            let ghost base = out@;
            let mut ti: usize = 0;
            while ti < screen.ticket_list.len()
                invariant
                    si < screens@.len(),
                    *screen == screens@[si as int],
                    ti <= screen.ticket_list@.len(),
                    out@ == base.add(ticket_candidates(screens@, si as int, ti as int, *skip_words)),
                decreases screen.ticket_list@.len() - ti,
            {
                let t = &screen.ticket_list[ti];
                let skip = should_skip_ticket(t, skip_words);
                let ghost prev = out@;
                if t.clickable && !skip {
                    out.push(Candidate { screen_index: si, ticket_index: ti, screen_id: screen.id, ticket_id: t.id });
                    assert(out@ =~= base.add(ticket_candidates(screens@, si as int, ti + 1, *skip_words)));
                } else {
                    assert(out@ =~= base.add(ticket_candidates(screens@, si as int, ti + 1, *skip_words)));
                }
                ti = ti + 1;
            }
        }
        si = si + 1;
    }
    Ok(out)
}

/// The candidates share one session with the one at `i` from `i` up to `j`.
pub open spec fn same_screen_between(c: Seq<Candidate>, i: int, j: int) -> bool {
    forall|k: int| i < k < j ==> (#[trigger] c[k]).screen_index == c[i].screen_index
}

/// The first move of a scan.
pub fn first_move(candidates: &Vec<Candidate>) -> (r: SalvageMove)
    ensures
        candidates@.len() > 0 ==> r matches SalvageMove::Run(0),
        candidates@.len() == 0 ==> (r matches SalvageMove::Rescan { delay_ms } && delay_ms == RESCAN_DELAY_MS),
{
    if candidates.len() > 0 {
        SalvageMove::Run(0)
    } else {
        SalvageMove::Rescan { delay_ms: RESCAN_DELAY_MS }
    }
}

/// The move after the pipeline ended on the candidate at `i` with `outcome`:
/// a purchase or a cancellation ends the task; a fatal code skips the rest of
/// that session; an unsupported challenge ends the scan; any other failure
/// moves on to the next candidate. A scan that runs out waits and rescans.
pub fn after_candidate(candidates: &Vec<Candidate>, i: usize, outcome: &Outcome) -> (r: SalvageMove)
    requires
        i < candidates@.len(),
    ensures
        outcome is Success ==> (r matches SalvageMove::Stop(o) && o == *outcome),
        *outcome == Outcome::Failure(FailReason::Cancelled) ==> (r matches SalvageMove::Stop(o) && o == *outcome),
        *outcome == Outcome::Failure(FailReason::UnsupportedChallenge) ==> (r matches SalvageMove::Rescan { delay_ms }
            && delay_ms == RESCAN_DELAY_MS),
        (outcome matches Outcome::Failure(f) && f is Fatal) ==> match r {
            SalvageMove::Run(j) => i < j < candidates@.len() && same_screen_between(candidates@, i as int, j as int)
                && candidates@[j as int].screen_index != candidates@[i as int].screen_index,
            SalvageMove::Rescan { delay_ms } => delay_ms == RESCAN_DELAY_MS
                && same_screen_between(candidates@, i as int, candidates@.len() as int),
            SalvageMove::Stop(_) => false,
        },
        (outcome == Outcome::Failure(FailReason::TokenRetriesExhausted)
            || outcome == Outcome::Failure(FailReason::OrderRetriesExhausted)) ==> match r {
            SalvageMove::Run(j) => j == i + 1 && j < candidates@.len(),
            SalvageMove::Rescan { delay_ms } => delay_ms == RESCAN_DELAY_MS && i + 1 == candidates@.len(),
            SalvageMove::Stop(_) => false,
        },
{
    match outcome {
        Outcome::Success { order_id, pay_token, pay_param, confirm_details } => SalvageMove::Stop(
            Outcome::Success {
                order_id: *order_id,
                pay_token: pay_token.clone(),
                pay_param: pay_param.clone(),
                confirm_details: confirm_details.clone(),
            },
        ),
        Outcome::Failure(FailReason::Cancelled) => SalvageMove::Stop(Outcome::Failure(FailReason::Cancelled)),
        Outcome::Failure(FailReason::UnsupportedChallenge) => SalvageMove::Rescan { delay_ms: RESCAN_DELAY_MS },
        Outcome::Failure(FailReason::Fatal(_)) => {
            let screen = candidates[i].screen_index;
            let last = candidates.len() - 1;
            let mut j: usize = i;
            while j < last && candidates[j + 1].screen_index == screen
                invariant
                    i <= j <= last,
                    last == candidates@.len() - 1,
                    screen == candidates@[i as int].screen_index,
                    same_screen_between(candidates@, i as int, j + 1),
                decreases last - j,
            {
                j = j + 1;
            }
            if j < last {
                SalvageMove::Run(j + 1)
            } else {
                SalvageMove::Rescan { delay_ms: RESCAN_DELAY_MS }
            }
        },
        Outcome::Failure(_) => {
            if i < candidates.len() - 1 {
                SalvageMove::Run(i + 1)
            } else {
                SalvageMove::Rescan { delay_ms: RESCAN_DELAY_MS }
            }
        },
    }
}

} // verus!
