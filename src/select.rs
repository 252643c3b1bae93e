use vstd::prelude::*;
use crate::errors::MinepackError;
use crate::schema::{File, Mod};

verus! {

/// Whether a file lists the game version `v` among its compatible versions.
pub open spec fn is_compatible(f: File, v: Seq<char>) -> bool {
    exists|k: int| 0 <= k < f.game_versions@.len() && #[trigger] f.game_versions@[k]@ == v
}

/// The indices, in order, of the files among the first `n` that are compatible with `v`.
pub open spec fn compatible_prefix(files: Seq<File>, v: Seq<char>, n: nat) -> Seq<usize>
    decreases n,
{
    if n == 0 {
        seq![]
    } else {
        let p = compatible_prefix(files, v, (n - 1) as nat);
        if is_compatible(files[n - 1], v) {
            p.push((n - 1) as usize)
        } else {
            p
        }
    }
}

/// The indices, in order, of the files compatible with `v`.
pub open spec fn compatible_indices(files: Seq<File>, v: Seq<char>) -> Seq<usize> {
    compatible_prefix(files, v, files.len())
}

/// What choosing a file comes to.
pub enum FileSelection {
    /// This file (an index into the mod's files) is the one to use.
    Chosen(usize),
    /// The user picks one of these compatible files.
    ChooseAmong(Vec<usize>),
    /// The requested file is not compatible: the user either cancels, or goes on to
    /// `default_choice` over these compatible files.
    AskFallback(Vec<usize>),
}

/// The mathematical form of a `FileSelection`.
pub enum SelectionView {
    Chosen(usize),
    ChooseAmong(Seq<usize>),
    AskFallback(Seq<usize>),
}

impl View for FileSelection {
    type V = SelectionView;

    open spec fn view(&self) -> SelectionView {
        match self {
            FileSelection::Chosen(i) => SelectionView::Chosen(*i),
            FileSelection::ChooseAmong(v) => SelectionView::ChooseAmong(v@),
            FileSelection::AskFallback(v) => SelectionView::AskFallback(v@),
        }
    }
}

/// Selection among compatible files when no particular file is asked for: the
/// only one, or the first when choosing automatically; else the user chooses.
pub open spec fn default_choice_spec(compatible: Seq<usize>, auto_select: bool) -> SelectionView {
    if compatible.len() == 1 || auto_select {
        SelectionView::Chosen(compatible[0])
    } else {
        SelectionView::ChooseAmong(compatible)
    }
}

/// The first index in `idx` whose file has the id `id`, if any.
pub open spec fn first_with_id(files: Seq<File>, idx: Seq<usize>, id: u32) -> Option<usize>
    decreases idx.len(),
{
    if idx.len() == 0 {
        None
    } else if files[idx[0] as int].id == id {
        Some(idx[0])
    } else {
        first_with_id(files, idx.drop_first(), id)
    }
}

/// The selection for given files, target version, requested file id and mode;
/// `None` when no file is compatible.
pub open spec fn select_spec(
    files: Seq<File>,
    v: Seq<char>,
    requested: Option<u32>,
    auto_select: bool,
) -> Option<SelectionView> {
    let c = compatible_indices(files, v);
    if c.len() == 0 {
        None
    } else {
        match requested {
            Some(id) => match first_with_id(files, c, id) {
                Some(i) => Some(SelectionView::Chosen(i)),
                None => if auto_select {
                    Some(SelectionView::Chosen(c[0]))
                } else {
                    Some(SelectionView::AskFallback(c))
                },
            },
            None => Some(default_choice_spec(c, auto_select)),
        }
    }
}

/// Every index of `idx` points at a file compatible with `v`.
pub open spec fn all_compatible(files: Seq<File>, idx: Seq<usize>, v: Seq<char>) -> bool {
    forall|k: int| 0 <= k < idx.len() ==> {
        &&& (#[trigger] idx[k]) < files.len()
        &&& is_compatible(files[idx[k] as int], v)
    }
}

/// Every file that a selection can lead to is compatible with `v`.
pub open spec fn selection_compatible(files: Seq<File>, s: SelectionView, v: Seq<char>) -> bool {
    match s {
        SelectionView::Chosen(i) => i < files.len() && is_compatible(files[i as int], v),
        SelectionView::ChooseAmong(c) => all_compatible(files, c, v),
        SelectionView::AskFallback(c) => all_compatible(files, c, v),
    }
}

proof fn lemma_compatible_prefix(files: Seq<File>, v: Seq<char>, n: nat)
    requires
        n <= files.len(),
        files.len() <= usize::MAX,
    ensures
        all_compatible(files, compatible_prefix(files, v, n), v),
        forall|k: int|
            0 <= k < compatible_prefix(files, v, n).len() ==> #[trigger] compatible_prefix(
                files,
                v,
                n,
            )[k] < n,
        forall|j: int|
            0 <= j < n && is_compatible(files[j], v) ==> compatible_prefix(files, v, n).contains(
                j as usize,
            ),
    decreases n,
{
    if n > 0 {
        lemma_compatible_prefix(files, v, (n - 1) as nat);
        let p = compatible_prefix(files, v, (n - 1) as nat);
        if is_compatible(files[n - 1], v) {
            let q = p.push((n - 1) as usize);
            assert forall|k: int| 0 <= k < q.len() implies (#[trigger] q[k]) < files.len()
                && is_compatible(files[q[k] as int], v) by {
                if k < p.len() {
                    assert(q[k] == p[k]);
                }
            }
            assert forall|j: int|
                0 <= j < n && is_compatible(files[j], v) implies p.push(
                (n - 1) as usize,
            ).contains(j as usize) by {
                if j == n - 1 {
                    assert(p.push((n - 1) as usize)[p.len() as int] == (n - 1) as usize);
                } else {
                    let w = choose|w: int| 0 <= w < p.len() && p[w] == j as usize;
                    assert(p.push((n - 1) as usize)[w] == j as usize);
                }
            }
        }
    }
}

proof fn lemma_first_with_id(files: Seq<File>, idx: Seq<usize>, id: u32)
    ensures
        first_with_id(files, idx, id) matches Some(i) ==> idx.contains(i) && files[i as int].id
            == id,
        first_with_id(files, idx, id) is None ==> forall|k: int|
            0 <= k < idx.len() ==> files[#[trigger] idx[k] as int].id != id,
    decreases idx.len(),
{
    if idx.len() > 0 {
        lemma_first_with_id(files, idx.drop_first(), id);
        if files[idx[0] as int].id != id {
            if let Some(i) = first_with_id(files, idx.drop_first(), id) {
                let w = choose|w: int| 0 <= w < idx.drop_first().len() && idx.drop_first()[w] == i;
                assert(idx[w + 1] == i);
            }
            assert forall|k: int| 0 <= k < idx.len() && first_with_id(files, idx, id) is None implies files[#[trigger] idx[k] as int].id != id by {
                if k > 0 {
                    assert(idx[k] == idx.drop_first()[k - 1]);
                }
            }
        } else {
            assert(idx[0] == idx[0]);
        }
    }
}

/// Whatever the target version, the requested id and the mode, file selection
/// never leads to a file whose compatible versions exclude the target version.
pub proof fn selection_only_compatible(
    files: Seq<File>,
    v: Seq<char>,
    requested: Option<u32>,
    auto_select: bool,
)
    requires
        files.len() <= usize::MAX,
    ensures
        select_spec(files, v, requested, auto_select) matches Some(s) ==> selection_compatible(
            files,
            s,
            v,
        ),
{
    let c = compatible_indices(files, v);
    lemma_compatible_prefix(files, v, files.len());
    if let Some(id) = requested {
        lemma_first_with_id(files, c, id);
        if let Some(i) = first_with_id(files, c, id) {
            let w = choose|w: int| 0 <= w < c.len() && c[w] == i;
            assert(c[w] < files.len());
        }
    }
    if c.len() > 0 {
        assert(c[0] < files.len());
    }
}

/// Selection among compatible files when no particular file is asked for.
pub fn default_choice(compatible: Vec<usize>, auto_select: bool) -> (r: FileSelection)
    requires
        compatible@.len() > 0,
    ensures
        r@ == default_choice_spec(compatible@, auto_select),
{
    if compatible.len() == 1 || auto_select {
        FileSelection::Chosen(compatible[0])
    } else {
        FileSelection::ChooseAmong(compatible)
    }
}

fn file_supports(f: &File, minecraft_version: &str) -> (r: bool)
    ensures
        r == is_compatible(*f, minecraft_version@),
{
    let mut k: usize = 0;
    while k < f.game_versions.len()
        invariant
            0 <= k <= f.game_versions.len(),
            forall|j: int| 0 <= j < k ==> #[trigger] f.game_versions@[j]@ != minecraft_version@,
        decreases f.game_versions.len() - k,
    {
        if crate::text::str_eq(f.game_versions[k].as_str(), minecraft_version) {
            return true;
        }
        k = k + 1;
    }
    false
}

/// Select a compatible file version from the mod's available files: the
/// requested file when it is compatible; otherwise, automatically, the first
/// compatible file; otherwise the choice that is left to the user. Fails when no
/// file lists the target version.
pub fn select_file_version(
    mod_info: &Mod,
    minecraft_version: &str,
    file_id_from_url: Option<u32>,
    auto_select: bool,
) -> (r: Result<FileSelection, MinepackError>)
    ensures
        match select_spec(mod_info.latest_files@, minecraft_version@, file_id_from_url, auto_select) {
            Some(s) => r matches Ok(sel) && sel@ == s,
            None => r matches Err(MinepackError::NoCompatibleModFiles(v)) && v@ == minecraft_version@,
        },
        r matches Ok(sel) ==> selection_compatible(mod_info.latest_files@, sel@, minecraft_version@),
{
    let mut compatible: Vec<usize> = Vec::new();
    let mut i: usize = 0;
    while i < mod_info.latest_files.len()
        invariant
            0 <= i <= mod_info.latest_files.len(),
            compatible@ == compatible_prefix(mod_info.latest_files@, minecraft_version@, i as nat),
        decreases mod_info.latest_files.len() - i,
    {
        if file_supports(&mod_info.latest_files[i], minecraft_version) {
            compatible.push(i);
        }
        i = i + 1;
    }
    proof {
        selection_only_compatible(mod_info.latest_files@, minecraft_version@, file_id_from_url, auto_select);
        lemma_compatible_prefix(mod_info.latest_files@, minecraft_version@, mod_info.latest_files@.len());
        assert(compatible@.subrange(0, compatible@.len() as int) =~= compatible@);
    }
    if compatible.len() == 0 {
        return Err(MinepackError::NoCompatibleModFiles(String::from_str(minecraft_version)));
    }
    if let Some(file_id) = file_id_from_url {
        let mut k: usize = 0;
        while k < compatible.len()
            invariant
                0 <= k <= compatible.len(),
                file_id_from_url == Some(file_id),
                compatible@ == compatible_indices(mod_info.latest_files@, minecraft_version@),
                all_compatible(mod_info.latest_files@, compatible@, minecraft_version@),
                first_with_id(mod_info.latest_files@, compatible@, file_id) == first_with_id(
                    mod_info.latest_files@,
                    compatible@.subrange(k as int, compatible@.len() as int),
                    file_id,
                ),
            decreases compatible.len() - k,
        {
            let idx = compatible[k];
            assert(compatible@.subrange(k as int, compatible@.len() as int).drop_first()
                =~= compatible@.subrange(k + 1, compatible@.len() as int));
            if mod_info.latest_files[idx].id == file_id {
                assert(compatible@.subrange(k as int, compatible@.len() as int)[0] == idx);
                assert(compatible@[k as int] == idx);
                assert(first_with_id(
                    mod_info.latest_files@,
                    compatible@.subrange(k as int, compatible@.len() as int),
                    file_id,
                ) == Some(idx));
                return Ok(FileSelection::Chosen(idx));
            }
            k = k + 1;
        }
        assert(compatible@.subrange(k as int, compatible@.len() as int).len() == 0);
        if auto_select {
            return Ok(FileSelection::Chosen(compatible[0]));
        }
        return Ok(FileSelection::AskFallback(compatible));
    }
    Ok(default_choice(compatible, auto_select))
}

} // verus!
