//! Where the companion project is looked for, in which order, and which of
//! the places looked at is taken.

use vstd::prelude::*;
use crate::project::{is_project_directory, validate_project_directory, DirectorySnapshot, SnapshotView};
use crate::text::texts;

verus! {

/// The environment variable that names the project's path outright.
pub const OVERRIDE_VARIABLE: &'static str = "ELIZA_PROJECT_PATH";

/// The environment variable that names the user's home directory.
pub const HOME_VARIABLE: &'static str = "USERPROFILE";

/// How many directories are tried upward from the executable's own.
pub const EXECUTABLE_LEVELS: usize = 15;

/// How many directories are tried upward from the working directory.
pub const WORKING_DIRECTORY_LEVELS: usize = 10;

/// The place that a candidate's segments are appended to.
#[derive(Clone, Copy, Debug, PartialEq, Eq, Structural)]
pub enum Anchor {
    /// The path that the override variable holds.
    Override,
    /// The user's home directory.
    Home,
    /// The directory that many levels above the executable's directory.
    Executable(usize),
    /// The directory that many levels above the working directory.
    WorkingDirectory(usize),
    /// Nothing: the segments are a whole path.
    Fixed,
}

/// One place to look at: an anchor and the path segments below it.
#[derive(Clone, Debug, PartialEq, Eq)]
pub struct Candidate {
    pub anchor: Anchor,
    pub segments: Vec<&'static str>,
}

/// A candidate as plain values.
pub struct CandidateView {
    pub anchor: Anchor,
    pub segments: Seq<Seq<char>>,
}

impl View for Candidate {
    type V = CandidateView;

    open spec fn view(&self) -> CandidateView {
        CandidateView { anchor: self.anchor, segments: texts(self.segments@) }
    }
}

/// The views of a list of candidates.
pub open spec fn candidate_views(list: Seq<Candidate>) -> Seq<CandidateView> {
    list.map_values(|c: Candidate| c@)
}

/// What the host offers to search from.
#[derive(Clone, Copy, Debug, PartialEq, Eq, Structural)]
pub struct SearchRoots {
    /// The override variable is set.
    pub has_override: bool,
    /// The home variable is set.
    pub has_home: bool,
    /// The directories from the executable's own up to the root, itself
    /// counted; 0 where the executable's place is unknown.
    pub executable_ancestors: usize,
    /// The directories from the working directory up to the root, itself
    /// counted; 0 where the working directory is unknown.
    pub working_directory_ancestors: usize,
}

/// The project nested in its organisation's directory.
pub open spec fn nested_layout() -> Seq<Seq<char>> {
    seq!["eliza"@, "trading-brain"@]
}

/// The project directly below the anchor.
pub open spec fn sibling_layout() -> Seq<Seq<char>> {
    seq!["trading-brain"@]
}

/// The conventional places below the home directory, in order.
pub open spec fn home_layouts() -> Seq<Seq<Seq<char>>> {
    seq![
        seq!["Civ"@, "eliza"@, "trading-brain"@],
        seq!["Documents"@, "Civ"@, "eliza"@, "trading-brain"@],
        seq!["Desktop"@, "Civ"@, "eliza"@, "trading-brain"@],
        seq!["Projects"@, "Civ"@, "eliza"@, "trading-brain"@],
        seq!["eliza"@, "trading-brain"@],
        seq!["Civ"@, "trading-brain"@],
    ]
}

/// The absolute paths tried last, in order.
pub open spec fn fallback_paths() -> Seq<Seq<char>> {
    seq![
        "C:\\Users\\Top Cash Pawn\\Civ\\eliza\\trading-brain"@,
        "C:\\Users\\Top Cash Pawn\\Documents\\Civ\\eliza\\trading-brain"@,
        "C:\\Users\\Top Cash Pawn\\Desktop\\Civ\\eliza\\trading-brain"@,
    ]
}

/// First priority: the override path itself, where there is one.
pub open spec fn override_part(has_override: bool) -> Seq<CandidateView> {
    if has_override {
        seq![CandidateView { anchor: Anchor::Override, segments: Seq::empty() }]
    } else {
        Seq::empty()
    }
}

/// Second priority: the conventional places below the home directory.
pub open spec fn home_part(has_home: bool) -> Seq<CandidateView> {
    if has_home {
        Seq::new(
            home_layouts().len(),
            |i: int| CandidateView { anchor: Anchor::Home, segments: home_layouts()[i] },
        )
    } else {
        Seq::empty()
    }
}

/// Third priority: at each of `levels` directories upward from the
/// executable's, the nested place and then the sibling place.
pub open spec fn executable_part(levels: nat) -> Seq<CandidateView> {
    Seq::new(
        2 * levels,
        |i: int|
            CandidateView {
                anchor: Anchor::Executable((i / 2) as usize),
                segments: if i % 2 == 0 {
                    nested_layout()
                } else {
                    sibling_layout()
                },
            },
    )
}

/// Fourth priority: at each of `levels` directories upward from the working
/// directory, the nested place.
pub open spec fn working_directory_part(levels: nat) -> Seq<CandidateView> {
    Seq::new(
        levels,
        |i: int|
            CandidateView { anchor: Anchor::WorkingDirectory(i as usize), segments: nested_layout() },
    )
}

/// Last priority: the fixed absolute paths.
pub open spec fn fallback_part() -> Seq<CandidateView> {
    Seq::new(
        fallback_paths().len(),
        |i: int| CandidateView { anchor: Anchor::Fixed, segments: seq![fallback_paths()[i]] },
    )
}

/// The smaller of a count of ancestors and the bound on the walk.
pub open spec fn bounded_levels(ancestors: usize, bound: usize) -> nat {
    if ancestors < bound {
        ancestors as nat
    } else {
        bound as nat
    }
}

/// Every place that is looked at, in strict priority order.
pub open spec fn plan_of(roots: SearchRoots) -> Seq<CandidateView> {
    override_part(roots.has_override) + home_part(roots.has_home) + executable_part(
        bounded_levels(roots.executable_ancestors, EXECUTABLE_LEVELS),
    ) + working_directory_part(
        bounded_levels(roots.working_directory_ancestors, WORKING_DIRECTORY_LEVELS),
    ) + fallback_part()
}

fn place(anchor: Anchor, segments: Vec<&'static str>) -> (c: Candidate)
    ensures
        c@ == (CandidateView { anchor, segments: texts(segments@) }),
{
    Candidate { anchor, segments }
}

fn nested_segments() -> (v: Vec<&'static str>)
    ensures
        texts(v@) == nested_layout(),
{
    let v = vec!["eliza", "trading-brain"];
    assert(texts(v@) =~= nested_layout());
    v
}

fn sibling_segments() -> (v: Vec<&'static str>)
    ensures
        texts(v@) == sibling_layout(),
{
    let v = vec!["trading-brain"];
    assert(texts(v@) =~= sibling_layout());
    v
}

fn push_home_places(plan: &mut Vec<Candidate>)
    ensures
        candidate_views(final(plan)@) == candidate_views(old(plan)@) + home_part(true),
{
    let a = vec!["Civ", "eliza", "trading-brain"];
    let b = vec!["Documents", "Civ", "eliza", "trading-brain"];
    let c = vec!["Desktop", "Civ", "eliza", "trading-brain"];
    let d = vec!["Projects", "Civ", "eliza", "trading-brain"];
    let e = vec!["eliza", "trading-brain"];
    let f = vec!["Civ", "trading-brain"];
    proof {
        assert(texts(a@) =~= home_layouts()[0]);
        assert(texts(b@) =~= home_layouts()[1]);
        assert(texts(c@) =~= home_layouts()[2]);
        assert(texts(d@) =~= home_layouts()[3]);
        assert(texts(e@) =~= home_layouts()[4]);
        assert(texts(f@) =~= home_layouts()[5]);
    }
    plan.push(place(Anchor::Home, a));
    plan.push(place(Anchor::Home, b));
    plan.push(place(Anchor::Home, c));
    plan.push(place(Anchor::Home, d));
    plan.push(place(Anchor::Home, e));
    plan.push(place(Anchor::Home, f));
    assert(candidate_views(plan@) =~= candidate_views(old(plan)@) + home_part(true));
}

fn push_executable_places(plan: &mut Vec<Candidate>, levels: usize)
    requires
        levels <= EXECUTABLE_LEVELS,
    ensures
        candidate_views(final(plan)@) == candidate_views(old(plan)@) + executable_part(levels as nat),
{
    let mut level: usize = 0;
    assert(candidate_views(plan@) =~= candidate_views(old(plan)@) + executable_part(0));
    while level < levels
        invariant
            level <= levels,
            candidate_views(plan@) == candidate_views(old(plan)@) + executable_part(level as nat),
        decreases levels - level,
    {
        let ghost before = candidate_views(plan@);
        let nested = place(Anchor::Executable(level), nested_segments());
        let sibling = place(Anchor::Executable(level), sibling_segments());
        plan.push(nested);
        plan.push(sibling);
        proof {
            assert(candidate_views(plan@) =~= before.push(nested@).push(sibling@));
            assert(candidate_views(plan@) =~= candidate_views(old(plan)@) + executable_part(
                (level + 1) as nat,
            ));
        }
        level += 1;
    }
}

fn push_working_directory_places(plan: &mut Vec<Candidate>, levels: usize)
    requires
        levels <= WORKING_DIRECTORY_LEVELS,
    ensures
        candidate_views(final(plan)@) == candidate_views(old(plan)@) + working_directory_part(
            levels as nat,
        ),
{
    let mut level: usize = 0;
    assert(candidate_views(plan@) =~= candidate_views(old(plan)@) + working_directory_part(0));
    while level < levels
        invariant
            level <= levels,
            candidate_views(plan@) == candidate_views(old(plan)@) + working_directory_part(
                level as nat,
            ),
        decreases levels - level,
    {
        let ghost before = candidate_views(plan@);
        let nested = place(Anchor::WorkingDirectory(level), nested_segments());
        plan.push(nested);
        proof {
            assert(candidate_views(plan@) =~= before.push(nested@));
            assert(candidate_views(plan@) =~= candidate_views(old(plan)@)
                + working_directory_part((level + 1) as nat));
        }
        level += 1;
    }
}

fn push_fallback_places(plan: &mut Vec<Candidate>)
    ensures
        candidate_views(final(plan)@) == candidate_views(old(plan)@) + fallback_part(),
{
    let a = vec!["C:\\Users\\Top Cash Pawn\\Civ\\eliza\\trading-brain"];
    let b = vec!["C:\\Users\\Top Cash Pawn\\Documents\\Civ\\eliza\\trading-brain"];
    let c = vec!["C:\\Users\\Top Cash Pawn\\Desktop\\Civ\\eliza\\trading-brain"];
    proof {
        assert(texts(a@) =~= seq![fallback_paths()[0]]);
        assert(texts(b@) =~= seq![fallback_paths()[1]]);
        assert(texts(c@) =~= seq![fallback_paths()[2]]);
    }
    plan.push(place(Anchor::Fixed, a));
    plan.push(place(Anchor::Fixed, b));
    plan.push(place(Anchor::Fixed, c));
    assert(candidate_views(plan@) =~= candidate_views(old(plan)@) + fallback_part());
}

/// Lists every place to look at, in strict priority order.
pub fn search_plan(roots: &SearchRoots) -> (plan: Vec<Candidate>)
    ensures
        candidate_views(plan@) == plan_of(*roots),
{
    let mut plan: Vec<Candidate> = Vec::new();
    if roots.has_override {
        let whole = place(Anchor::Override, Vec::new());
        assert(whole@.segments =~= Seq::empty());
        plan.push(whole);
    }
    assert(candidate_views(plan@) =~= override_part(roots.has_override));
    if roots.has_home {
        push_home_places(&mut plan);
    }
    assert(candidate_views(plan@) =~= override_part(roots.has_override) + home_part(roots.has_home));
    let executable_levels: usize = if roots.executable_ancestors < EXECUTABLE_LEVELS {
        roots.executable_ancestors
    } else {
        EXECUTABLE_LEVELS
    };
    push_executable_places(&mut plan, executable_levels);
    let working_directory_levels: usize = if roots.working_directory_ancestors
        < WORKING_DIRECTORY_LEVELS {
        roots.working_directory_ancestors
    } else {
        WORKING_DIRECTORY_LEVELS
    };
    push_working_directory_places(&mut plan, working_directory_levels);
    push_fallback_places(&mut plan);
    plan
}

/// What came of looking at one candidate that canonicalized: the canonical
/// path, of whatever type the host keeps paths in, and what was seen there.
pub struct Probe<P> {
    pub path: P,
    pub snapshot: DirectorySnapshot,
}

/// A probe as plain values.
pub struct ProbeView<P> {
    pub path: P,
    pub snapshot: SnapshotView,
}

impl<P> View for Probe<P> {
    type V = ProbeView<P>;

    open spec fn view(&self) -> ProbeView<P> {
        ProbeView { path: self.path, snapshot: self.snapshot@ }
    }
}

/// The view of a probe that may have failed to canonicalize.
pub open spec fn probe_view<P>(probe: Option<Probe<P>>) -> Option<ProbeView<P>> {
    match probe {
        Some(p) => Some(p@),
        None => None,
    }
}

/// The views of a list of probes.
pub open spec fn probe_views<P>(probes: Seq<Option<Probe<P>>>) -> Seq<Option<ProbeView<P>>> {
    probes.map_values(|p: Option<Probe<P>>| probe_view(p))
}

/// A candidate is taken only if it canonicalized and passes the validity
/// predicate.
pub open spec fn accepted<P>(probe: Option<ProbeView<P>>) -> bool {
    probe matches Some(p) && is_project_directory(p.snapshot)
}

/// The probe at `index` is accepted and none before it is.
pub open spec fn is_first_accepted<P>(probes: Seq<Option<ProbeView<P>>>, index: int) -> bool {
    &&& 0 <= index < probes.len()
    &&& accepted(probes[index])
    &&& forall|earlier: int| 0 <= earlier < index ==> !accepted(#[trigger] probes[earlier])
}

/// What the locator owes for a list of probes in priority order: the path of
/// the first accepted one, or nothing where none is accepted.
pub open spec fn located<P>(probes: Seq<Option<ProbeView<P>>>, result: Option<P>) -> bool {
    match result {
        Some(path) => exists|index: int|
            #[trigger] is_first_accepted(probes, index) && probes[index]->0.path == path,
        None => forall|index: int| 0 <= index < probes.len() ==> !accepted(#[trigger] probes[index]),
    }
}

/// The mathematical state of a search.
pub struct SearchState<P> {
    /// How many candidates the plan holds.
    pub candidates: nat,
    /// What was reported so far, in priority order.
    pub probes: Seq<Option<ProbeView<P>>>,
    /// The path that was taken.
    pub found: Option<P>,
}

impl<P> SearchState<P> {
    /// No more probes than candidates; a path is held exactly when the last
    /// probe reported was the first one accepted, and it is that probe's.
    pub open spec fn wf(self) -> bool {
        &&& self.probes.len() <= self.candidates
        &&& match self.found {
            Some(path) => {
                &&& is_first_accepted(self.probes, self.probes.len() - 1)
                &&& self.probes.last()->0.path == path
            },
            None => forall|index: int|
                0 <= index < self.probes.len() ==> !accepted(#[trigger] self.probes[index]),
        }
    }

    /// A search that has looked at nothing yet.
    pub open spec fn begin(candidates: nat) -> Self {
        SearchState { candidates, probes: Seq::empty(), found: None }
    }

    /// The index of the candidate to look at next; none once a path is held
    /// or the plan is used up.
    pub open spec fn pending(self) -> Option<nat> {
        if self.found is None && self.probes.len() < self.candidates {
            Some(self.probes.len())
        } else {
            None
        }
    }

    /// The state after the pending candidate's probe is reported. A report
    /// that nothing is pending for changes nothing.
    pub open spec fn record(self, probe: Option<ProbeView<P>>) -> Self {
        if self.pending() is None {
            self
        } else {
            SearchState {
                candidates: self.candidates,
                probes: self.probes.push(probe),
                found: if accepted(probe) {
                    Some(probe->0.path)
                } else {
                    None
                },
            }
        }
    }
}

/// A search in progress: the host looks at the pending candidate and reports
/// what it saw, until nothing is pending.
pub struct Search<P> {
    candidates: usize,
    consulted: usize,
    found: Option<P>,
    probes: Ghost<Seq<Option<ProbeView<P>>>>,
}

impl<P> View for Search<P> {
    type V = SearchState<P>;

    closed spec fn view(&self) -> SearchState<P> {
        SearchState { candidates: self.candidates as nat, probes: self.probes@, found: self.found }
    }
}

impl<P> Search<P> {
    #[verifier::type_invariant]
    closed spec fn inv(self) -> bool {
        &&& self@.wf()
        &&& self.consulted == self.probes@.len()
    }

    /// Starts a search over a plan of `candidates` places.
    pub fn begin(candidates: usize) -> (search: Self)
        ensures
            search@ == SearchState::<P>::begin(candidates as nat),
            search@.wf(),
    {
        Search { candidates, consulted: 0, found: None, probes: Ghost(Seq::empty()) }
    }

    /// The index of the candidate to look at next.
    pub fn pending(&self) -> (index: Option<usize>)
        ensures
            self@.wf(),
            match index {
                Some(i) => self@.pending() == Some(i as nat),
                None => self@.pending() is None,
            },
    {
        proof {
            use_type_invariant(self);
        }
        if self.found.is_none() && self.consulted < self.candidates {
            Some(self.consulted)
        } else {
            None
        }
    }

    /// How many candidates have been looked at.
    pub fn consulted(&self) -> (count: usize)
        ensures
            count == self@.probes.len(),
    {
        proof {
            use_type_invariant(self);
        }
        self.consulted
    }

    /// Reports what came of looking at the pending candidate: `None` where
    /// its path did not canonicalize.
    pub fn record(&mut self, probe: Option<Probe<P>>)
        ensures
            final(self)@ == old(self)@.record(probe_view(probe)),
            final(self)@.wf(),
    {
        proof {
            use_type_invariant(&*self);
        }
        if self.found.is_some() || self.consulted >= self.candidates {
            return ;
        }
        let ghost seen = probe_view(probe);
        let ghost history = self.probes@.push(seen);
        let taken = match probe {
            Some(p) => {
                if validate_project_directory(&p.snapshot) {
                    Some(p.path)
                } else {
                    None
                }
            },
            None => None,
        };
        let candidates: usize = self.candidates;
        let consulted: usize = self.consulted + 1;
        *self = Search { candidates, consulted, found: taken, probes: Ghost(history) };
    }

    /// Ends the search: the path that was taken, if any.
    pub fn into_found(self) -> (found: Option<P>)
        ensures
            found == self@.found,
            located(self@.probes, found),
    {
        proof {
            use_type_invariant(&self);
            if self.found is Some {
                assert(is_first_accepted(self@.probes, self@.probes.len() - 1));
            }
        }
        self.found
    }
}

/// Takes the first of the probes, given in priority order, that canonicalized
/// and passes the validity predicate, and returns its path.
pub fn find_project_directory<P>(probes: Vec<Option<Probe<P>>>) -> (found: Option<P>)
    ensures
        located(probe_views(probes@), found),
{
    let mut search: Search<P> = Search::begin(probes.len());
    let ghost all = probe_views(probes@);
    for probe in it: probes
        invariant
            it.seq() == probes@,
            all == probe_views(probes@),
            search@.wf(),
            search@.candidates == probes@.len(),
            search@.probes.len() <= it.index(),
            search@.probes == all.take(search@.probes.len() as int),
            search@.found is None ==> search@.probes.len() == it.index(),
    {
        search.record(probe);
    }
    let found = search.into_found();
    proof {
        let seen = search@.probes;
        if found is Some {
            let index = choose|index: int|
                #[trigger] is_first_accepted(seen, index) && seen[index]->0.path == found->0;
            assert forall|earlier: int| 0 <= earlier < index implies !accepted(
                #[trigger] all[earlier],
            ) by {
                assert(seen[earlier] == all[earlier]);
            }
            assert(seen[index] == all[index]);
            assert(is_first_accepted(all, index));
        } else {
            assert(seen =~= all);
        }
    }
    found
}

/// For a list of probes, what the locator owes is one thing: two results that
/// both meet `located` are the same.
pub proof fn lemma_located_is_unique<P>(
    probes: Seq<Option<ProbeView<P>>>,
    first: Option<P>,
    second: Option<P>,
)
    requires
        located(probes, first),
        located(probes, second),
    ensures
        first == second,
{
    if first is Some && second is Some {
        let i = choose|index: int|
            #[trigger] is_first_accepted(probes, index) && probes[index]->0.path == first->0;
        let j = choose|index: int|
            #[trigger] is_first_accepted(probes, index) && probes[index]->0.path == second->0;
        assert(i == j) by {
            if i < j {
                assert(!accepted(probes[i]));
            }
            if j < i {
                assert(!accepted(probes[j]));
            }
        }
    } else if first is Some {
        let i = choose|index: int|
            #[trigger] is_first_accepted(probes, index) && probes[index]->0.path == first->0;
        assert(!accepted(probes[i]));
    } else if second is Some {
        let j = choose|index: int|
            #[trigger] is_first_accepted(probes, index) && probes[index]->0.path == second->0;
        assert(!accepted(probes[j]));
    }
}

/// Every step of a search keeps its state well formed, so at every moment
/// the path held is that of the first accepted probe and of no other.
pub proof fn lemma_record_keeps_search_well_formed<P>(
    state: SearchState<P>,
    probe: Option<ProbeView<P>>,
)
    requires
        state.wf(),
    ensures
        state.record(probe).wf(),
        located(state.record(probe).probes, state.record(probe).found),
{
    let next = state.record(probe);
    if next.found is Some {
        assert(is_first_accepted(next.probes, next.probes.len() - 1));
    }
}

/// Once a path is held nothing more is pending: no candidate of lower
/// priority is looked at after the first accepted one.
pub proof fn lemma_nothing_pending_once_found<P>(state: SearchState<P>)
    requires
        state.found is Some,
    ensures
        state.pending() is None,
        forall|probe: Option<ProbeView<P>>| state.record(probe) == state,
{
}

} // verus!
