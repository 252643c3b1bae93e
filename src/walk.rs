use vstd::prelude::*;
use vstd::set_lib::{lemma_int_range, lemma_len_subset, set_int_range};
use crate::config::Reference;
use crate::schema::{File, FileDependency, FileRelationType, Mod};
use crate::select::{select_file_version, select_spec, FileSelection, SelectionView};
use crate::side::{determine_mod_side_cf, lowered_all, side_rule};
use crate::store::{
    copy_reference, has_project, is_mod_reference, mod_reference, reference_file_name,
    reference_file_name_spec, store_write, ReferenceStore, StoreView,
};
use crate::text::lower_of;

verus! {

/// The project ids of the required dependencies among `d`, in order.
pub open spec fn required_among(d: Seq<FileDependency>) -> Seq<u32>
    decreases d.len(),
{
    if d.len() == 0 {
        seq![]
    } else {
        let p = required_among(d.drop_last());
        if d.last().relation_type == FileRelationType::RequiredDependency {
            p.push(d.last().mod_id)
        } else {
            p
        }
    }
}

/// The project ids of a file's required dependencies, in declared order.
pub open spec fn required_ids(f: File) -> Seq<u32> {
    match f.dependencies {
        Some(d) => required_among(d@),
        None => seq![],
    }
}

/// The project ids of a file's required dependencies, in declared order.
pub fn required_dependency_ids(file: &File) -> (r: Vec<u32>)
    ensures
        r@ == required_ids(*file),
{
    let mut r: Vec<u32> = Vec::new();
    match &file.dependencies {
        None => {},
        Some(d) => {
            let mut i: usize = 0;
            while i < d.len()
                invariant
                    0 <= i <= d@.len(),
                    r@ == required_among(d@.subrange(0, i as int)),
                decreases d.len() - i,
            {
                assert(d@.subrange(0, i + 1).drop_last() =~= d@.subrange(0, i as int));
                if d[i].relation_type == FileRelationType::RequiredDependency {
                    r.push(d[i].mod_id);
                }
                i = i + 1;
            }
            assert(d@.subrange(0, d@.len() as int) =~= d@);
        },
    }
    r
}

/// `s` in reverse order.
pub open spec fn reversed(s: Seq<u32>) -> Seq<u32> {
    Seq::new(s.len(), |i: int| s[s.len() - 1 - i])
}

/// Takes from the top (the end) of `pending` the first id that is not in
/// `visited`, dropping the visited ones above it: what is left, and that id.
pub open spec fn pop_unvisited(pending: Seq<u32>, visited: Seq<u32>) -> (Seq<u32>, Option<u32>)
    decreases pending.len(),
{
    if pending.len() == 0 {
        (pending, None)
    } else if visited.contains(pending.last()) {
        pop_unvisited(pending.drop_last(), visited)
    } else {
        (pending.drop_last(), Some(pending.last()))
    }
}

proof fn lemma_pop_shrinks(pending: Seq<u32>, visited: Seq<u32>)
    ensures
        pop_unvisited(pending, visited).0.len() <= pending.len(),
        pop_unvisited(pending, visited).1 is Some ==> pop_unvisited(pending, visited).0.len()
            < pending.len(),
    decreases pending.len(),
{
    if pending.len() > 0 && visited.contains(pending.last()) {
        lemma_pop_shrinks(pending.drop_last(), visited);
    }
}

/// What the surrounding program reports back to the walk.
pub enum WalkEvent {
    /// Go on: after a notice, and to start.
    Continue,
    /// The registry returned this mod for the requested id. A mod with
    /// another id counts as a failed request.
    Fetched(Mod),
    /// The registry request for the requested id failed.
    FetchFailed,
    /// The user's answer to the confirmation.
    Confirmed(bool),
    /// The user's choice among the offered files, by position in the offer.
    FileChosen(usize),
    /// Whether the descriptor file was written.
    Written(bool),
}

/// What the walk asks the surrounding program to do next.
pub enum WalkAction {
    /// Fetch this project from the registry; answer `Fetched` or `FetchFailed`.
    Fetch(u32),
    /// Notice: this dependency is installed already. Answer `Continue`.
    AlreadyInstalled(u32),
    /// Notice: fetching this dependency failed; it is skipped. Answer `Continue`.
    FetchFailed(u32),
    /// Ask the user whether to add the dependency of this name; answer `Confirmed`.
    Confirm(String),
    /// Notice: the user declined this dependency. Answer `Continue`.
    Declined(u32),
    /// Let the user pick one of these files (id and display name); answer `FileChosen`.
    ChooseFile(Vec<(u32, String)>),
    /// Notice: the dependency of this name has no compatible file. Answer `Continue`.
    NoCompatibleFile(String),
    /// Write this descriptor under this file name; answer `Written`.
    Write(String, Reference),
    /// Notice: writing the descriptor of this mod failed. Answer `Continue`.
    WriteFailed(String),
    /// Notice: the dependency of this name was added. Answer `Continue`.
    Added(String),
    /// The walk is over.
    Done,
}

/// Where a walk stands: idle, or waiting for the answer about one dependency.
pub enum WalkPhase {
    Idle,
    AwaitFetch(u32),
    AwaitConfirm(u32, Mod),
    AwaitFile(u32, Mod, Vec<usize>),
    AwaitWrite(u32, Vec<u32>, String, Reference, String),
}

/// The dependency walk of one "add" operation: it resolves the required
/// dependencies of the added file depth-first, in declared order, and records
/// each one that is neither installed nor seen before in this walk.
pub struct DependencyWalk {
    minecraft_version: String,
    yes: bool,
    store: ReferenceStore,
    visited: Vec<u32>,
    pending: Vec<u32>,
    phase: WalkPhase,
    written: Ghost<Seq<u32>>,
}

/// The descriptor and further dependencies that adding file `i` of `m` leads to.
pub open spec fn prepared_write(
    m: Mod,
    i: int,
    file_name: Seq<char>,
    r: Reference,
    children: Seq<u32>,
    mod_name: Seq<char>,
) -> bool {
    let f = m.latest_files@[i];
    &&& file_name == reference_file_name_spec(m)
    &&& is_mod_reference(
        r,
        m,
        f,
        side_rule(
            f.is_server_pack == Some(true),
            lowered_all(f.game_versions@),
            lower_of(m.name@),
            lower_of(f.file_name@),
        ),
    )
    &&& children == required_ids(f)
    &&& mod_name == m.name@
}

impl DependencyWalk {
    /// The project ids processed so far in this walk.
    pub closed spec fn visited_ids(&self) -> Seq<u32> {
        self.visited@
    }

    /// The dependency ids still to look at; the next one is the last.
    pub closed spec fn pending_ids(&self) -> Seq<u32> {
        self.pending@
    }

    /// The descriptors known to be on disk.
    pub closed spec fn store_view(&self) -> StoreView {
        self.store@
    }

    /// The project ids whose descriptor this walk has written, in order.
    pub closed spec fn written_ids(&self) -> Seq<u32> {
        self.written@
    }

    /// The target game version.
    pub closed spec fn target_version(&self) -> Seq<char> {
        self.minecraft_version@
    }

    /// Whether the walk adds dependencies without asking.
    pub closed spec fn auto(&self) -> bool {
        self.yes
    }

    /// Where the walk stands.
    pub closed spec fn current_phase(&self) -> WalkPhase {
        self.phase
    }

    /// The dependency being handled, when the walk waits for an answer about it.
    pub open spec fn current(&self) -> Option<u32> {
        match self.current_phase() {
            WalkPhase::Idle => None,
            WalkPhase::AwaitFetch(id) => Some(id),
            WalkPhase::AwaitConfirm(id, _) => Some(id),
            WalkPhase::AwaitFile(id, _, _) => Some(id),
            WalkPhase::AwaitWrite(id, _, _, _, _) => Some(id),
        }
    }

    /// How far the handling of the current dependency is from its end.
    pub open spec fn stage(&self) -> nat {
        match self.current_phase() {
            WalkPhase::Idle => 0,
            WalkPhase::AwaitFetch(_) => 4,
            WalkPhase::AwaitConfirm(_, _) => 3,
            WalkPhase::AwaitFile(_, _, _) => 2,
            WalkPhase::AwaitWrite(_, _, _, _, _) => 1,
        }
    }

    /// Whether `e` answers what the walk waits for.
    pub open spec fn accepts(&self, e: WalkEvent) -> bool {
        match self.current_phase() {
            WalkPhase::Idle => e is Continue,
            WalkPhase::AwaitFetch(_) => e is Fetched || e is FetchFailed,
            WalkPhase::AwaitConfirm(_, _) => e is Confirmed,
            WalkPhase::AwaitFile(_, _, c) => e matches WalkEvent::FileChosen(k) && k < c@.len(),
            WalkPhase::AwaitWrite(_, _, _, _, _) => e is Written,
        }
    }

    /// The mod and the record being handled belong to the requested dependency.
    pub open spec fn tied_to_request(&self) -> bool {
        match self.current_phase() {
            WalkPhase::AwaitConfirm(id, m) => m.id == id,
            WalkPhase::AwaitFile(id, m, _) => m.id == id,
            WalkPhase::AwaitWrite(id, _, _, r, _) => r.link.spec_project_id() == id,
            _ => true,
        }
    }

    pub closed spec fn wf(&self) -> bool {
        &&& self.tied_to_request()
        &&& self.store.wf()
        &&& self.visited@.no_duplicates()
        &&& self.written@.no_duplicates()
        &&& forall|k: int| 0 <= k < self.written@.len() ==> self.visited@.contains(#[trigger] self.written@[k])
        &&& match self.current() {
            Some(id) => !self.visited@.contains(id),
            None => true,
        }
        &&& match self.phase {
            WalkPhase::AwaitFile(_, m, c) => forall|k: int| 0 <= k < c@.len() ==> (#[trigger] c@[k]) < m.latest_files@.len(),
            _ => true,
        }
    }

    /// The measure that every step but the last lowers: fewer project ids left
    /// to visit, or else fewer pending dependencies, or else a later stage.
    pub open spec fn progress(&self) -> (int, int, int) {
        (0x1_0000_0000 - self.visited_ids().len(), self.pending_ids().len() as int, self.stage() as int)
    }
}

/// Lexicographic order on progress measures.
pub open spec fn lex_lt(a: (int, int, int), b: (int, int, int)) -> bool {
    a.0 < b.0 || (a.0 == b.0 && (a.1 < b.1 || (a.1 == b.1 && a.2 < b.2)))
}

proof fn lemma_distinct_u32_bound(s: Seq<u32>)
    requires
        s.no_duplicates(),
    ensures
        s.len() <= 0x1_0000_0000,
{
    let f = |x: u32| x as int;
    assert(vstd::relations::injective(f)) by {
        assert forall|a: u32, b: u32| #[trigger] f(a) == #[trigger] f(b) implies a == b by {}
    }
    s.lemma_no_duplicates_injective(f);
    let t = s.map_values(f);
    t.unique_seq_to_set();
    assert(t.to_set().subset_of(set_int_range(0, 0x1_0000_0000))) by {
        assert forall|x: int| t.to_set().contains(x) implies set_int_range(0, 0x1_0000_0000).contains(x) by {
            let k = choose|k: int| 0 <= k < t.len() && t[k] == x;
            assert(t[k] == s[k] as int);
        }
    }
    lemma_int_range(0, 0x1_0000_0000);
    lemma_len_subset(t.to_set(), set_int_range(0, 0x1_0000_0000));
}

/// A walk in a consistent state has never written two descriptors for one
/// project, and its progress measure is bounded below, so that it ends.
pub proof fn walk_writes_each_project_once(w: &DependencyWalk)
    requires
        w.wf(),
    ensures
        w.written_ids().no_duplicates(),
        w.progress().0 >= 0,
        w.progress().1 >= 0,
        w.progress().2 >= 0,
{
    lemma_distinct_u32_bound(w.visited_ids());
}

/// A walk started over a file without required dependencies asks for no
/// registry request and writes nothing: its first step ends it, with the
/// store, the visited ids and the writes as they were.
pub proof fn walk_without_dependencies_is_done(
    w: &DependencyWalk,
    primary_file: File,
    next: &DependencyWalk,
    a: WalkAction,
)
    requires
        w.current() is None,
        w.pending_ids() == reversed(required_ids(primary_file)),
        required_ids(primary_file).len() == 0,
        w.step_spec(WalkEvent::Continue, next, a),
    ensures
        a is Done,
        next.store_view() == w.store_view(),
        next.visited_ids() == w.visited_ids(),
        next.written_ids() == w.written_ids(),
{
    assert(w.pending_ids().len() == 0);
}

proof fn lemma_pop_unvisited(pending: Seq<u32>, visited: Seq<u32>)
    ensures
        pop_unvisited(pending, visited).1 matches Some(id) ==> !visited.contains(id)
            && pending.contains(id),
    decreases pending.len(),
{
    if pending.len() > 0 {
        if visited.contains(pending.last()) {
            lemma_pop_unvisited(pending.drop_last(), visited);
            if let Some(id) = pop_unvisited(pending.drop_last(), visited).1 {
                let k = choose|k: int| 0 <= k < pending.drop_last().len() && pending.drop_last()[k] == id;
                assert(pending[k] == id);
            }
        } else {
            assert(pending[pending.len() - 1] == pending.last());
        }
    }
}

/// A step never goes back to a project already visited in this walk: it
/// fetches only a pending dependency not yet visited, and it asks to record
/// only the dependency being handled, which is not yet visited. So a
/// dependency cycle leads back to no second request and no second record.
pub proof fn walk_never_revisits(w: &DependencyWalk, e: WalkEvent, next: &DependencyWalk, a: WalkAction)
    requires
        w.wf(),
        w.accepts(e),
        w.step_spec(e, next, a),
    ensures
        a matches WalkAction::Fetch(id) ==> !w.visited_ids().contains(id) && w.pending_ids().contains(id),
        a matches WalkAction::Write(_, r) ==> w.current() == Some(r.link.spec_project_id())
            && !w.visited_ids().contains(r.link.spec_project_id()),
{
    lemma_pop_unvisited(w.pending_ids(), w.visited_ids());
}

fn contains_id(v: &Vec<u32>, id: u32) -> (r: bool)
    ensures
        r == v@.contains(id),
{
    let mut i: usize = 0;
    while i < v.len()
        invariant
            0 <= i <= v@.len(),
            forall|j: int| 0 <= j < i ==> v@[j] != id,
        decreases v.len() - i,
    {
        if v[i] == id {
            return true;
        }
        i = i + 1;
    }
    false
}

impl DependencyWalk {
    /// Both walks have the same target version and mode.
    pub open spec fn same_setting(&self, other: &DependencyWalk) -> bool {
        &&& self.target_version() == other.target_version()
        &&& self.auto() == other.auto()
    }

    /// Only the phase changed.
    pub open spec fn only_phase_changed(&self, old: &DependencyWalk) -> bool {
        &&& self.same_setting(old)
        &&& self.store_view() == old.store_view()
        &&& self.visited_ids() == old.visited_ids()
        &&& self.pending_ids() == old.pending_ids()
        &&& self.written_ids() == old.written_ids()
    }

    /// The walk has taken file `i` of `m` for dependency `id`, and asks to write its descriptor.
    pub open spec fn took_file(&self, old: &DependencyWalk, id: u32, m: Mod, i: int, a: WalkAction) -> bool {
        &&& self.only_phase_changed(old)
        &&& 0 <= i < m.latest_files@.len()
        &&& match self.current_phase() {
            WalkPhase::AwaitWrite(id2, children, file_name, r, name) => {
                &&& id2 == id
                &&& prepared_write(m, i, file_name@, r, children@, name@)
                &&& a matches WalkAction::Write(f2, r2) && f2@ == file_name@ && r2 == r
            },
            _ => false,
        }
    }

    /// The walk has run file selection for dependency `id` with the fetched mod `m`.
    pub open spec fn selected(&self, old: &DependencyWalk, id: u32, m: Mod, a: WalkAction) -> bool {
        match select_spec(m.latest_files@, old.target_version(), None, old.auto()) {
            None => {
                &&& self.only_phase_changed(old)
                &&& self.current_phase() is Idle
                &&& a matches WalkAction::NoCompatibleFile(n) && n@ == m.name@
            },
            Some(SelectionView::Chosen(i)) => self.took_file(old, id, m, i as int, a),
            Some(SelectionView::ChooseAmong(c)) => {
                &&& self.only_phase_changed(old)
                &&& self.current_phase() matches WalkPhase::AwaitFile(id2, m2, c2) && id2 == id && m2 == m
                    && c2@ == c
                &&& a matches WalkAction::ChooseFile(labels) && labels@.len() == c.len() && forall|
                    k: int,
                | 0 <= k < c.len() ==> (#[trigger] labels@[k]).0 == m.latest_files@[c[k] as int].id
                    && labels@[k].1 == m.latest_files@[c[k] as int].display_name
            },
            Some(SelectionView::AskFallback(_)) => false,
        }
    }

    /// What one step does, for each phase and answer.
    pub open spec fn step_spec(&self, e: WalkEvent, next: &DependencyWalk, a: WalkAction) -> bool {
        match self.current_phase() {
            WalkPhase::Idle => {
                &&& next.same_setting(self)
                &&& next.store_view() == self.store_view()
                &&& next.written_ids() == self.written_ids()
                &&& next.pending_ids() == pop_unvisited(self.pending_ids(), self.visited_ids()).0
                &&& match pop_unvisited(self.pending_ids(), self.visited_ids()).1 {
                    None => a is Done && next.current_phase() is Idle && next.visited_ids() == self.visited_ids(),
                    Some(id) => if has_project(self.store_view(), id) {
                        &&& a == WalkAction::AlreadyInstalled(id)
                        &&& next.current_phase() is Idle
                        &&& next.visited_ids() == self.visited_ids().push(id)
                    } else {
                        &&& a == WalkAction::Fetch(id)
                        &&& next.current_phase() == WalkPhase::AwaitFetch(id)
                        &&& next.visited_ids() == self.visited_ids()
                    },
                }
            },
            WalkPhase::AwaitFetch(id) => match e {
                WalkEvent::Fetched(m) => if m.id != id {
                    &&& next.only_phase_changed(self)
                    &&& next.current_phase() is Idle
                    &&& a == WalkAction::FetchFailed(id)
                } else if self.auto() {
                    next.selected(self, id, m, a)
                } else {
                    &&& next.only_phase_changed(self)
                    &&& next.current_phase() == WalkPhase::AwaitConfirm(id, m)
                    &&& a matches WalkAction::Confirm(n) && n@ == m.name@
                },
                _ => {
                    &&& next.only_phase_changed(self)
                    &&& next.current_phase() is Idle
                    &&& a == WalkAction::FetchFailed(id)
                },
            },
            WalkPhase::AwaitConfirm(id, m) => match e {
                WalkEvent::Confirmed(true) => next.selected(self, id, m, a),
                _ => {
                    &&& next.only_phase_changed(self)
                    &&& next.current_phase() is Idle
                    &&& a == WalkAction::Declined(id)
                },
            },
            WalkPhase::AwaitFile(id, m, c) => match e {
                WalkEvent::FileChosen(k) => next.took_file(self, id, m, c@[k as int] as int, a),
                _ => false,
            },
            WalkPhase::AwaitWrite(id, children, file_name, r, name) => match e {
                WalkEvent::Written(true) => {
                    &&& next.same_setting(self)
                    &&& next.current_phase() is Idle
                    &&& next.store_view() == store_write(self.store_view(), file_name@, r)
                    &&& next.visited_ids() == self.visited_ids().push(id)
                    &&& next.written_ids() == self.written_ids().push(id)
                    &&& next.pending_ids() == self.pending_ids() + reversed(children@)
                    &&& a matches WalkAction::Added(n) && n@ == name@
                },
                _ => {
                    &&& next.only_phase_changed(self)
                    &&& next.current_phase() is Idle
                    &&& a matches WalkAction::WriteFailed(n) && n@ == name@
                },
            },
        }
    }

    /// Starts the walk over the required dependencies of `primary_file`, the file
    /// just added for project `primary_id`, with `store` holding the descriptors
    /// on disk.
    pub fn new(
        minecraft_version: String,
        yes: bool,
        store: ReferenceStore,
        primary_id: u32,
        primary_file: &File,
    ) -> (r: DependencyWalk)
        requires
            store.wf(),
        ensures
            r.wf(),
            r.target_version() == minecraft_version@,
            r.auto() == yes,
            r.store_view() == store@,
            r.visited_ids() == seq![primary_id],
            r.pending_ids() == reversed(required_ids(*primary_file)),
            r.written_ids() == Seq::<u32>::empty(),
            r.current_phase() is Idle,
            r.tied_to_request(),
    {
        let children = required_dependency_ids(primary_file);
        let mut visited: Vec<u32> = Vec::new();
        visited.push(primary_id);
        let mut pending: Vec<u32> = Vec::new();
        push_reversed(&mut pending, &children);
        assert(pending@ =~= reversed(children@)) by {
            assert(Seq::<u32>::empty() + reversed(children@) =~= reversed(children@));
        }
        DependencyWalk {
            minecraft_version,
            yes,
            store,
            visited,
            pending,
            phase: WalkPhase::Idle,
            written: Ghost(Seq::empty()),
        }
    }

    /// The project ids processed so far in this walk.
    pub fn visited(&self) -> (r: &Vec<u32>)
        ensures
            r@ == self.visited_ids(),
    {
        &self.visited
    }

    /// The descriptors known to be on disk, with those this walk wrote.
    pub fn store(&self) -> (r: &ReferenceStore)
        ensures
            r@ == self.store_view(),
    {
        &self.store
    }

    fn pop_next(&mut self) -> (a: WalkAction)
        requires
            old(self).wf(),
            old(self).phase is Idle,
        ensures
            final(self).wf(),
            old(self).step_spec(WalkEvent::Continue, final(self), a),
    {
        let ghost p0 = self.pending@;
        while self.pending.len() > 0
            invariant
                self.wf(),
                self.phase is Idle,
                old(self).phase is Idle,
                self.same_setting(old(self)),
                self.store@ == old(self).store@,
                self.visited@ == old(self).visited@,
                self.written@ == old(self).written@,
                pop_unvisited(self.pending@, self.visited@) == pop_unvisited(p0, self.visited@),
                p0 == old(self).pending@,
            decreases self.pending.len(),
        {
            let ghost before = self.pending@;
            let id = self.pending.pop().unwrap();
            assert(self.pending@ == before.drop_last());
            if contains_id(&self.visited, id) {
                continue;
            }
            assert(pop_unvisited(before, self.visited@) == (before.drop_last(), Some(id)));
            if self.store.is_installed(id) {
                let ghost v0 = self.visited@;
                self.visited.push(id);
                proof {
                    assert forall|x: u32| v0.contains(x) implies self.visited@.contains(x) by {
                        let w = choose|w: int| 0 <= w < v0.len() && v0[w] == x;
                        assert(self.visited@[w] == x);
                    }
                    assert forall|k: int| 0 <= k < self.written@.len() implies self.visited@.contains(#[trigger] self.written@[k]) by {
                        assert(v0.contains(self.written@[k]));
                    }
                }
                return WalkAction::AlreadyInstalled(id);
            }
            self.phase = WalkPhase::AwaitFetch(id);
            return WalkAction::Fetch(id);
        }
        WalkAction::Done
    }
}

impl DependencyWalk {
    fn take_file(&mut self, id: u32, m: Mod, i: usize) -> (a: WalkAction)
        requires
            m.id == id,
            old(self).wf(),
            old(self).phase is Idle,
            !old(self).visited@.contains(id),
            i < m.latest_files@.len(),
        ensures
            final(self).wf(),
            final(self).took_file(old(self), id, m, i as int, a),
    {
        let f = &m.latest_files[i];
        let side = determine_mod_side_cf(m.name.as_str(), f).unwrap();
        let reference = mod_reference(&m, f, side);
        let file_name = reference_file_name(&m);
        let children = required_dependency_ids(f);
        let name = m.name.clone();
        let a = WalkAction::Write(file_name.clone(), copy_reference(&reference));
        self.phase = WalkPhase::AwaitWrite(id, children, file_name, reference, name);
        a
    }

    fn select(&mut self, id: u32, m: Mod) -> (a: WalkAction)
        requires
            m.id == id,
            old(self).wf(),
            old(self).phase is Idle,
            !old(self).visited@.contains(id),
        ensures
            final(self).wf(),
            final(self).selected(old(self), id, m, a),
    {
        let sel = select_file_version(&m, self.minecraft_version.as_str(), None, self.yes);
        proof {
            crate::select::selection_only_compatible(
                m.latest_files@,
                self.minecraft_version@,
                None,
                self.yes,
            );
        }
        match sel {
            Err(_) => WalkAction::NoCompatibleFile(m.name.clone()),
            Ok(FileSelection::Chosen(i)) => self.take_file(id, m, i),
            Ok(FileSelection::ChooseAmong(c)) => {
                let mut labels: Vec<(u32, String)> = Vec::new();
                let mut k: usize = 0;
                while k < c.len()
                    invariant
                        0 <= k <= c@.len(),
                        labels@.len() == k,
                        forall|j: int| 0 <= j < c@.len() ==> (#[trigger] c@[j]) < m.latest_files@.len(),
                        forall|j: int|
                            0 <= j < k ==> (#[trigger] labels@[j]).0 == m.latest_files@[c@[j] as int].id
                                && labels@[j].1 == m.latest_files@[c@[j] as int].display_name,
                    decreases c.len() - k,
                {
                    let f = &m.latest_files[c[k]];
                    labels.push((f.id, f.display_name.clone()));
                    k = k + 1;
                }
                self.phase = WalkPhase::AwaitFile(id, m, c);
                WalkAction::ChooseFile(labels)
            },
            Ok(FileSelection::AskFallback(_)) => {
                proof {
                    assert(false);
                }
                WalkAction::Done
            },
        }
    }

    /// Takes one step: hands in the answer to the last action (`Continue` at
    /// the start) and returns the next action. Every step but the one that
    /// returns `Done` lowers the progress measure; visited ids are only added.
    pub fn step(&mut self, event: WalkEvent) -> (a: WalkAction)
        requires
            old(self).wf(),
            old(self).accepts(event),
        ensures
            final(self).wf(),
            old(self).step_spec(event, final(self), a),
            final(self).tied_to_request(),
            a is Added ==> final(self).written_ids().len() > 0 && has_project(
                final(self).store_view(),
                final(self).written_ids().last(),
            ),
            a is Done || lex_lt(final(self).progress(), old(self).progress()),
            old(self).visited_ids().is_prefix_of(final(self).visited_ids()),
    {
        let mut phase = WalkPhase::Idle;
        std::mem::swap(&mut self.phase, &mut phase);
        proof {
            lemma_distinct_u32_bound(self.visited@);
        }
        match phase {
            WalkPhase::Idle => {
                proof {
                    lemma_pop_shrinks(self.pending@, self.visited@);
                }
                self.pop_next()
            },
            WalkPhase::AwaitFetch(id) => match event {
                WalkEvent::Fetched(m) => if m.id != id {
                    WalkAction::FetchFailed(id)
                } else if self.yes {
                    self.select(id, m)
                } else {
                    let n = m.name.clone();
                    self.phase = WalkPhase::AwaitConfirm(id, m);
                    WalkAction::Confirm(n)
                },
                _ => WalkAction::FetchFailed(id),
            },
            WalkPhase::AwaitConfirm(id, m) => match event {
                WalkEvent::Confirmed(true) => self.select(id, m),
                _ => WalkAction::Declined(id),
            },
            WalkPhase::AwaitFile(id, m, c) => match event {
                WalkEvent::FileChosen(k) => {
                    let i = c[k];
                    self.take_file(id, m, i)
                },
                _ => WalkAction::Done,
            },
            WalkPhase::AwaitWrite(id, children, file_name, r, name) => match event {
                WalkEvent::Written(true) => {
                    proof {
                        crate::store::installed_after_write(self.store@, file_name@, r, id);
                    }
                    self.store.write(file_name, r);
                    let ghost v0 = self.visited@;
                    self.visited.push(id);
                    self.written = Ghost(self.written@.push(id));
                    push_reversed(&mut self.pending, &children);
                    proof {
                        assert forall|x: u32| v0.contains(x) implies self.visited@.contains(x) by {
                            let w = choose|w: int| 0 <= w < v0.len() && v0[w] == x;
                            assert(self.visited@[w] == x);
                        }
                        assert(self.visited@[v0.len() as int] == id);
                        assert forall|k: int| 0 <= k < self.written@.len() implies self.visited@.contains(#[trigger] self.written@[k]) by {
                            if k < self.written@.len() - 1 {
                                assert(v0.contains(self.written@[k]));
                            }
                        }
                        assert(!old(self).written@.contains(id)) by {
                            if old(self).written@.contains(id) {
                                let k = choose|k: int| 0 <= k < old(self).written@.len() && old(self).written@[k] == id;
                                assert(v0.contains(old(self).written@[k]));
                            }
                        }
                    }
                    WalkAction::Added(name)
                },
                _ => WalkAction::WriteFailed(name),
            },
        }
    }
}

fn push_reversed(pending: &mut Vec<u32>, children: &Vec<u32>)
    ensures
        final(pending)@ == old(pending)@ + reversed(children@),
{
    let ghost p0 = pending@;
    let n = children.len();
    let mut j: usize = n;
    while j > 0
        invariant
            n == children@.len(),
            0 <= j <= n,
            pending@ == p0 + reversed(children@).subrange(0, (n - j) as int),
        decreases j,
    {
        pending.push(children[j - 1]);
        assert(reversed(children@).subrange(0, (n - j + 1) as int) =~= reversed(children@).subrange(0, (n - j) as int).push(children@[j - 1]));
        j = j - 1;
    }
    assert(reversed(children@).subrange(0, n as int) =~= reversed(children@));
}

} // verus!
