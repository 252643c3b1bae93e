use vstd::prelude::*;
use crate::config::Reference;
use crate::errors::MinepackError;
use crate::mod_url::{mod_url_spec, parse_curseforge_mod_url, url_host_path};
use crate::schema::{File, Mod};
use crate::search::{find_mod_by_slug, first_with_slug, require_results};
use crate::select::{
    default_choice, default_choice_spec, select_file_version, select_spec, selection_compatible,
    FileSelection, SelectionView,
};
use crate::side::{determine_mod_side_cf, lowered_all, side_rule};
use crate::store::{is_mod_reference, mod_reference, reference_file_name, reference_file_name_spec};
use crate::text::{lower_of, parse_u32, parsed_u32, str_eq};

verus! {

/// The start of every mod page URL that the add command recognises.
pub const MOD_URL_PREFIX: &'static str = "https://www.curseforge.com/";

/// Whether a query is a mod page URL rather than search text.
pub open spec fn is_mod_url_spec(q: Seq<char>) -> bool {
    q.len() >= MOD_URL_PREFIX@.len() && q.subrange(0, MOD_URL_PREFIX@.len() as int) == MOD_URL_PREFIX@
}

/// Whether a query is a mod page URL rather than search text.
pub fn is_mod_url(query: &str) -> (r: bool)
    ensures
        r == is_mod_url_spec(query@),
{
    let n = MOD_URL_PREFIX.unicode_len();
    if query.unicode_len() < n {
        return false;
    }
    str_eq(query.substring_char(0, n), MOD_URL_PREFIX)
}

/// What the surrounding program reports back to the add workflow.
pub enum AddEvent {
    /// Begin.
    Start,
    /// The registry's search results.
    SearchResults(Vec<Mod>),
    /// The search request failed, with the reason.
    SearchFailed(String),
    /// The user's choice among the offered mods, by position in the offer.
    ModChosen(usize),
    /// The registry returned the requested mod.
    Fetched(Mod),
    /// The request for the mod failed, with the reason.
    FetchFailed(String),
    /// The user's yes or no.
    Answer(bool),
    /// The user's choice among the offered files, by position in the offer.
    FileChosen(usize),
    /// Whether the descriptor file was written.
    Written(bool),
}

/// What the add workflow asks the surrounding program to do next.
pub enum AddAction {
    /// Search the registry for this slug, for the target version.
    SearchBySlug(String),
    /// Search the registry for this text, for the target version.
    SearchByText(String),
    /// Let the user pick one of these mods (id, name, downloads).
    ChooseMod(Vec<(u32, String, u64)>),
    /// Fetch the mod with this id.
    FetchMod(u32),
    /// The requested file (this id) is not compatible: ask whether to pick a
    /// compatible one instead (yes) or to cancel (no).
    AskFallback(u32),
    /// Let the user pick one of these files (id and display name).
    ChooseFile(Vec<(u32, String)>),
    /// Ask whether to add the mod of this name.
    Confirm(String),
    /// Write this descriptor under this file name.
    Write(String, Reference),
    /// The mod was recorded: its project id and chosen file. Its dependencies
    /// are walked next.
    Added(u32, File),
    /// The workflow ended without adding a mod: declined (`Ok`), or failed.
    Done(Result<(), MinepackError>),
}

/// Where an add operation stands.
pub enum AddPhase {
    Start(String),
    AwaitSlugSearch(String, Option<u32>),
    AwaitTextSearch(String),
    AwaitModChoice(Vec<u32>),
    AwaitFetch(Option<u32>),
    AwaitFallback(Mod, Vec<usize>),
    AwaitFile(Mod, Vec<usize>),
    AwaitConfirm(Mod, usize),
    AwaitWrite(Mod, usize),
    Over,
}

/// One "add mod" operation: resolve the mod, select its file, confirm, and
/// record it; then hand over to the dependency walk.
pub struct AddFlow {
    minecraft_version: String,
    yes: bool,
    phase: AddPhase,
}

/// The descriptor write that recording file `i` of `m` asks for.
pub open spec fn primary_write(m: Mod, i: int, a: AddAction) -> bool {
    let f = m.latest_files@[i];
    a matches AddAction::Write(name, r) && name@ == reference_file_name_spec(m) && is_mod_reference(
        r,
        m,
        f,
        side_rule(
            f.is_server_pack == Some(true),
            lowered_all(f.game_versions@),
            lower_of(m.name@),
            lower_of(f.file_name@),
        ),
    )
}

/// Whether `a` offers exactly the files at positions `c` of `m`.
pub open spec fn offers_files(m: Mod, c: Seq<usize>, a: AddAction) -> bool {
    a matches AddAction::ChooseFile(labels) && labels@.len() == c.len() && forall|k: int|
        0 <= k < c.len() ==> (#[trigger] labels@[k]).0 == m.latest_files@[c[k] as int].id
            && labels@[k].1 == m.latest_files@[c[k] as int].display_name
}

impl AddFlow {
    pub closed spec fn target_version(&self) -> Seq<char> {
        self.minecraft_version@
    }

    pub closed spec fn auto(&self) -> bool {
        self.yes
    }

    /// Where the workflow stands.
    pub closed spec fn current_phase(&self) -> AddPhase {
        self.phase
    }

    /// Whether `e` answers what the workflow waits for.
    pub open spec fn accepts(&self, e: AddEvent) -> bool {
        match self.current_phase() {
            AddPhase::Start(_) => e is Start,
            AddPhase::AwaitSlugSearch(_, _) => e is SearchResults || e is SearchFailed,
            AddPhase::AwaitTextSearch(_) => e is SearchResults || e is SearchFailed,
            AddPhase::AwaitModChoice(ids) => e matches AddEvent::ModChosen(k) && k < ids@.len(),
            AddPhase::AwaitFetch(_) => e is Fetched || e is FetchFailed,
            AddPhase::AwaitFallback(_, _) => e is Answer,
            AddPhase::AwaitFile(_, c) => e matches AddEvent::FileChosen(k) && k < c@.len(),
            AddPhase::AwaitConfirm(_, _) => e is Answer,
            AddPhase::AwaitWrite(_, _) => e is Written,
            AddPhase::Over => false,
        }
    }

    pub closed spec fn wf(&self) -> bool {
        match self.phase {
            AddPhase::AwaitFallback(m, c) => c@.len() > 0 && selection_compatible(
                m.latest_files@,
                SelectionView::AskFallback(c@),
                self.minecraft_version@,
            ),
            AddPhase::AwaitFile(m, c) => selection_compatible(
                m.latest_files@,
                SelectionView::ChooseAmong(c@),
                self.minecraft_version@,
            ),
            AddPhase::AwaitConfirm(m, i) => i < m.latest_files@.len(),
            AddPhase::AwaitWrite(m, i) => i < m.latest_files@.len(),
            _ => true,
        }
    }

    /// Having file `i` of `m`: ask to confirm, or (with `yes`) write at once.
    pub open spec fn chose_file(&self, old: &AddFlow, m: Mod, i: int, a: AddAction) -> bool {
        &&& self.target_version() == old.target_version()
        &&& self.auto() == old.auto()
        &&& 0 <= i < m.latest_files@.len()
        &&& is_compatible_choice(m, i, old.target_version())
        &&& if old.auto() {
            self.current_phase() == AddPhase::AwaitWrite(m, i as usize) && primary_write(m, i, a)
        } else {
            &&& self.current_phase() == AddPhase::AwaitConfirm(m, i as usize)
            &&& a matches AddAction::Confirm(n) && n@ == m.name@
        }
    }

    /// Following a file selection `s` for `m`.
    pub open spec fn followed(&self, old: &AddFlow, m: Mod, s: SelectionView, requested: Option<u32>, a: AddAction) -> bool {
        match s {
            SelectionView::Chosen(i) => self.chose_file(old, m, i as int, a),
            SelectionView::ChooseAmong(c) => {
                &&& self.target_version() == old.target_version()
                &&& self.auto() == old.auto()
                &&& self.current_phase() matches AddPhase::AwaitFile(m2, c2) && m2 == m && c2@ == c
                &&& offers_files(m, c, a)
            },
            SelectionView::AskFallback(c) => {
                &&& self.target_version() == old.target_version()
                &&& self.auto() == old.auto()
                &&& self.current_phase() matches AddPhase::AwaitFallback(m2, c2) && m2 == m && c2@ == c
                &&& requested matches Some(id) && a == AddAction::AskFallback(id)
            },
        }
    }

    /// The workflow ended with `result`.
    pub open spec fn ended(&self, old: &AddFlow, a: AddAction, result: Result<(), MinepackError>) -> bool {
        &&& self.target_version() == old.target_version()
        &&& self.auto() == old.auto()
        &&& self.current_phase() is Over
        &&& a == AddAction::Done(result)
    }

    /// The workflow ended with a failure.
    pub open spec fn failed(&self, old: &AddFlow, a: AddAction) -> bool {
        &&& self.target_version() == old.target_version()
        &&& self.auto() == old.auto()
        &&& self.current_phase() is Over
        &&& a matches AddAction::Done(Err(_))
    }

    /// What one step does, for each phase and answer.
    pub open spec fn step_spec(&self, e: AddEvent, next: &AddFlow, a: AddAction) -> bool {
        match self.current_phase() {
            AddPhase::Start(q) => if is_mod_url_spec(q@) {
                match url_host_path(q@) {
                    Some((h, p)) => match mod_url_spec(h, p) {
                        Some((slug, fid)) => {
                            &&& next.target_version() == self.target_version()
                            &&& next.auto() == self.auto()
                            &&& next.current_phase() matches AddPhase::AwaitSlugSearch(s2, f2) && s2@ == slug && f2 == fid
                            &&& a matches AddAction::SearchBySlug(s3) && s3@ == slug
                        },
                        None => next.ended(self, a, Err(MinepackError::InvalidCurseforgeModUrl)),
                    },
                    None => next.ended(self, a, Err(MinepackError::InvalidCurseforgeModUrl)),
                }
            } else if parsed_u32(q@) is Some {
                &&& next.target_version() == self.target_version()
                &&& next.auto() == self.auto()
                &&& next.current_phase() == AddPhase::AwaitFetch(None)
                &&& a == AddAction::FetchMod(parsed_u32(q@)->Some_0)
            } else {
                &&& next.target_version() == self.target_version()
                &&& next.auto() == self.auto()
                &&& next.current_phase() == AddPhase::AwaitTextSearch(q)
                &&& a matches AddAction::SearchByText(s) && s@ == q@
            },
            AddPhase::AwaitSlugSearch(slug, fid) => match e {
                AddEvent::SearchResults(rs) => match first_with_slug(rs@, slug@) {
                    Some(k) => {
                        &&& next.target_version() == self.target_version()
                        &&& next.auto() == self.auto()
                        &&& next.current_phase() == AddPhase::AwaitFetch(fid)
                        &&& a == AddAction::FetchMod(rs@[k].id)
                    },
                    None => {
                        &&& next.failed(self, a)
                        &&& a matches AddAction::Done(Err(MinepackError::NoModsFound(s))) && s@ == slug@
                    },
                },
                AddEvent::SearchFailed(msg) => next.ended(self, a, Err(MinepackError::CurseforgeApiError(msg))),
                _ => false,
            },
            AddPhase::AwaitTextSearch(q) => match e {
                AddEvent::SearchResults(rs) => if rs@.len() == 0 {
                    &&& next.failed(self, a)
                    &&& a matches AddAction::Done(Err(MinepackError::NoModsFound(s))) && s@ == q@
                } else {
                    &&& next.target_version() == self.target_version()
                    &&& next.auto() == self.auto()
                    &&& next.current_phase() matches AddPhase::AwaitModChoice(ids) && ids@.len() == rs@.len()
                        && forall|k: int| 0 <= k < rs@.len() ==> #[trigger] ids@[k] == rs@[k].id
                    &&& a matches AddAction::ChooseMod(labels) && labels@.len() == rs@.len()
                        && forall|k: int|
                        0 <= k < rs@.len() ==> (#[trigger] labels@[k]).0 == rs@[k].id
                            && labels@[k].1 == rs@[k].name && labels@[k].2 == rs@[k].download_count
                },
                AddEvent::SearchFailed(msg) => next.ended(self, a, Err(MinepackError::CurseforgeApiError(msg))),
                _ => false,
            },
            AddPhase::AwaitModChoice(ids) => match e {
                AddEvent::ModChosen(k) => {
                    &&& next.target_version() == self.target_version()
                    &&& next.auto() == self.auto()
                    &&& next.current_phase() == AddPhase::AwaitFetch(None)
                    &&& a == AddAction::FetchMod(ids@[k as int])
                },
                _ => false,
            },
            AddPhase::AwaitFetch(fid) => match e {
                AddEvent::Fetched(m) => match select_spec(m.latest_files@, self.target_version(), fid, self.auto()) {
                    Some(s) => next.followed(self, m, s, fid, a),
                    None => {
                        &&& next.failed(self, a)
                        &&& a matches AddAction::Done(Err(MinepackError::NoCompatibleModFiles(v)))
                            && v@ == self.target_version()
                    },
                },
                AddEvent::FetchFailed(msg) => next.ended(self, a, Err(MinepackError::CurseforgeApiError(msg))),
                _ => false,
            },
            AddPhase::AwaitFallback(m, c) => match e {
                AddEvent::Answer(true) => next.followed(self, m, default_choice_spec(c@, false), None, a),
                _ => next.ended(self, a, Err(MinepackError::Cancelled)),
            },
            AddPhase::AwaitFile(m, c) => match e {
                AddEvent::FileChosen(k) => next.chose_file(self, m, c@[k as int] as int, a),
                _ => false,
            },
            AddPhase::AwaitConfirm(m, i) => match e {
                AddEvent::Answer(true) => {
                    &&& next.target_version() == self.target_version()
                    &&& next.auto() == self.auto()
                    &&& next.current_phase() == AddPhase::AwaitWrite(m, i)
                    &&& primary_write(m, i as int, a)
                },
                _ => next.ended(self, a, Ok(())),
            },
            AddPhase::AwaitWrite(m, i) => match e {
                AddEvent::Written(true) => {
                    &&& next.target_version() == self.target_version()
                    &&& next.auto() == self.auto()
                    &&& next.current_phase() is Over
                    &&& a matches AddAction::Added(id, f) && id == m.id && f == m.latest_files@[i as int]
                },
                _ => {
                    &&& next.failed(self, a)
                    &&& a matches AddAction::Done(Err(MinepackError::IoError(_)))
                },
            },
            AddPhase::Over => false,
        }
    }
}

impl AddFlow {
    /// Starts adding the mod that `query` names: a mod page URL, a project id,
    /// or search text.
    pub fn new(minecraft_version: String, query: String, yes: bool) -> (r: AddFlow)
        ensures
            r.wf(),
            r.target_version() == minecraft_version@,
            r.auto() == yes,
            r.current_phase() == AddPhase::Start(query),
    {
        AddFlow { minecraft_version, yes, phase: AddPhase::Start(query) }
    }

    fn write_action(m: &Mod, i: usize) -> (a: AddAction)
        requires
            i < m.latest_files@.len(),
        ensures
            primary_write(*m, i as int, a),
    {
        let f = &m.latest_files[i];
        let side = determine_mod_side_cf(m.name.as_str(), f).unwrap();
        AddAction::Write(reference_file_name(m), mod_reference(m, f, side))
    }

    fn file_labels(m: &Mod, c: &Vec<usize>) -> (a: AddAction)
        requires
            forall|k: int| 0 <= k < c@.len() ==> (#[trigger] c@[k]) < m.latest_files@.len(),
        ensures
            offers_files(*m, c@, a),
    {
        let mut labels: Vec<(u32, String)> = Vec::new();
        let mut k: usize = 0;
        while k < c.len()
            invariant
                0 <= k <= c@.len(),
                labels@.len() == k,
                forall|j: int| 0 <= j < c@.len() ==> (#[trigger] c@[j]) < m.latest_files@.len(),
                forall|j: int|
                    0 <= j < k ==> (#[trigger] labels@[j]).0 == m.latest_files@[c@[j] as int].id
                        && labels@[j].1 == m.latest_files@[c@[j] as int].display_name,
            decreases c.len() - k,
        {
            let f = &m.latest_files[c[k]];
            labels.push((f.id, f.display_name.clone()));
            k = k + 1;
        }
        AddAction::ChooseFile(labels)
    }

    fn choose_file(&mut self, m: Mod, i: usize) -> (a: AddAction)
        requires
            i < m.latest_files@.len(),
            is_compatible_choice(m, i as int, old(self).minecraft_version@),
        ensures
            final(self).wf(),
            final(self).chose_file(old(self), m, i as int, a),
    {
        if self.yes {
            let a = AddFlow::write_action(&m, i);
            self.phase = AddPhase::AwaitWrite(m, i);
            a
        } else {
            let n = m.name.clone();
            self.phase = AddPhase::AwaitConfirm(m, i);
            AddAction::Confirm(n)
        }
    }

    fn follow(&mut self, m: Mod, sel: FileSelection, requested: Option<u32>) -> (a: AddAction)
        requires
            selection_compatible(m.latest_files@, sel@, old(self).minecraft_version@),
            sel@ matches SelectionView::AskFallback(c) ==> requested is Some && c.len() > 0,
        ensures
            final(self).wf(),
            final(self).followed(old(self), m, sel@, requested, a),
    {
        match sel {
            FileSelection::Chosen(i) => self.choose_file(m, i),
            FileSelection::ChooseAmong(c) => {
                let a = AddFlow::file_labels(&m, &c);
                self.phase = AddPhase::AwaitFile(m, c);
                a
            },
            FileSelection::AskFallback(c) => {
                let id = match requested {
                    Some(id) => id,
                    None => 0,
                };
                self.phase = AddPhase::AwaitFallback(m, c);
                AddAction::AskFallback(id)
            },
        }
    }

    /// Takes one step: hands in the answer to the last action (`Start` at the
    /// beginning) and returns the next action. The descriptor of the mod is
    /// written before `Added` hands over to the dependency walk; a declined
    /// confirmation ends with success.
    pub fn step(&mut self, event: AddEvent) -> (a: AddAction)
        requires
            old(self).wf(),
            old(self).accepts(event),
        ensures
            final(self).wf(),
            old(self).step_spec(event, final(self), a),
    {
        let mut phase = AddPhase::Over;
        std::mem::swap(&mut self.phase, &mut phase);
        match phase {
            AddPhase::Start(q) => {
                if is_mod_url(q.as_str()) {
                    match parse_curseforge_mod_url(q.as_str()) {
                        Err(e) => AddAction::Done(Err(e)),
                        Ok((slug, fid)) => {
                            let s = slug.clone();
                            self.phase = AddPhase::AwaitSlugSearch(slug, fid);
                            AddAction::SearchBySlug(s)
                        },
                    }
                } else if let Some(id) = parse_u32(q.as_str()) {
                    self.phase = AddPhase::AwaitFetch(None);
                    AddAction::FetchMod(id)
                } else {
                    let s = q.clone();
                    self.phase = AddPhase::AwaitTextSearch(q);
                    AddAction::SearchByText(s)
                }
            },
            AddPhase::AwaitSlugSearch(slug, fid) => match event {
                AddEvent::SearchResults(rs) => match find_mod_by_slug(&rs, slug.as_str()) {
                    Ok(id) => {
                        self.phase = AddPhase::AwaitFetch(fid);
                        AddAction::FetchMod(id)
                    },
                    Err(e) => AddAction::Done(Err(e)),
                },
                AddEvent::SearchFailed(msg) => AddAction::Done(Err(MinepackError::CurseforgeApiError(msg))),
                _ => AddAction::Done(Err(MinepackError::Cancelled)),
            },
            AddPhase::AwaitTextSearch(q) => match event {
                AddEvent::SearchResults(rs) => match require_results(&rs, q.as_str()) {
                    Err(e) => AddAction::Done(Err(e)),
                    Ok(()) => {
                        let mut ids: Vec<u32> = Vec::new();
                        let mut labels: Vec<(u32, String, u64)> = Vec::new();
                        let mut k: usize = 0;
                        while k < rs.len()
                            invariant
                                0 <= k <= rs@.len(),
                                ids@.len() == k,
                                labels@.len() == k,
                                forall|j: int| 0 <= j < k ==> #[trigger] ids@[j] == rs@[j].id,
                                forall|j: int|
                                    0 <= j < k ==> (#[trigger] labels@[j]).0 == rs@[j].id
                                        && labels@[j].1 == rs@[j].name && labels@[j].2
                                        == rs@[j].download_count,
                            decreases rs.len() - k,
                        {
                            ids.push(rs[k].id);
                            labels.push((rs[k].id, rs[k].name.clone(), rs[k].download_count));
                            k = k + 1;
                        }
                        self.phase = AddPhase::AwaitModChoice(ids);
                        AddAction::ChooseMod(labels)
                    },
                },
                AddEvent::SearchFailed(msg) => AddAction::Done(Err(MinepackError::CurseforgeApiError(msg))),
                _ => AddAction::Done(Err(MinepackError::Cancelled)),
            },
            AddPhase::AwaitModChoice(ids) => match event {
                AddEvent::ModChosen(k) => {
                    let id = ids[k];
                    self.phase = AddPhase::AwaitFetch(None);
                    AddAction::FetchMod(id)
                },
                _ => AddAction::Done(Err(MinepackError::Cancelled)),
            },
            AddPhase::AwaitFetch(fid) => match event {
                AddEvent::Fetched(m) => {
                    let sel = select_file_version(&m, self.minecraft_version.as_str(), fid, self.yes);
                    match sel {
                        Err(e) => AddAction::Done(Err(e)),
                        Ok(sel) => self.follow(m, sel, fid),
                    }
                },
                AddEvent::FetchFailed(msg) => AddAction::Done(Err(MinepackError::CurseforgeApiError(msg))),
                _ => AddAction::Done(Err(MinepackError::Cancelled)),
            },
            AddPhase::AwaitFallback(m, c) => match event {
                AddEvent::Answer(true) => {
                    let sel = default_choice(c, false);
                    self.follow(m, sel, None)
                },
                _ => AddAction::Done(Err(MinepackError::Cancelled)),
            },
            AddPhase::AwaitFile(m, c) => match event {
                AddEvent::FileChosen(k) => {
                    let i = c[k];
                    self.choose_file(m, i)
                },
                _ => AddAction::Done(Err(MinepackError::Cancelled)),
            },
            AddPhase::AwaitConfirm(m, i) => match event {
                AddEvent::Answer(true) => {
                    let a = AddFlow::write_action(&m, i);
                    self.phase = AddPhase::AwaitWrite(m, i);
                    a
                },
                _ => AddAction::Done(Ok(())),
            },
            AddPhase::AwaitWrite(m, i) => match event {
                AddEvent::Written(true) => {
                    let mut m = m;
                    let id = m.id;
                    let f = m.latest_files.remove(i);
                    AddAction::Added(id, f)
                },
                _ => AddAction::Done(
                    Err(MinepackError::IoError(String::from_str("Failed to write the mod reference file"))),
                ),
            },
            AddPhase::Over => AddAction::Done(Err(MinepackError::Cancelled)),
        }
    }
}

/// File `i` of `m` lists the target version `v`.
pub open spec fn is_compatible_choice(m: Mod, i: int, v: Seq<char>) -> bool {
    selection_compatible(m.latest_files@, SelectionView::Chosen(i as usize), v)
}

} // verus!
