use vstd::prelude::*;
use crate::config::{Link, Reference, Side};
use crate::schema::{File, Mod};
use crate::text::{lower_of, lowercase, replace_spaces, spaces_to_hyphens};

verus! {

/// One descriptor file of the reference store: its file name and its record.
pub struct StoredReference {
    pub file_name: String,
    pub reference: Reference,
}

/// The descriptor files of a project's mods directory, at most one per file name.
pub struct ReferenceStore {
    entries: Vec<StoredReference>,
}

/// The store's contents: file name and record of each descriptor, in the order
/// they were first written.
pub type StoreView = Seq<(Seq<char>, Reference)>;

/// Whether some descriptor of `s` links to the project `id`.
pub open spec fn has_project(s: StoreView, id: u32) -> bool {
    exists|i: int| 0 <= i < s.len() && (#[trigger] s[i]).1.link.spec_project_id() == id
}

/// Whether the file names of `s` are pairwise distinct.
pub open spec fn names_unique(s: StoreView) -> bool {
    forall|i: int, j: int| 0 <= i < j < s.len() ==> (#[trigger] s[i]).0 != (#[trigger] s[j]).0
}

/// The position of the descriptor named `name`, if there is one.
pub open spec fn position_of(s: StoreView, name: Seq<char>) -> Option<int> {
    if exists|i: int| 0 <= i < s.len() && (#[trigger] s[i]).0 == name {
        Some(choose|i: int| 0 <= i < s.len() && (#[trigger] s[i]).0 == name)
    } else {
        None
    }
}

/// The store after writing `r` under `name`: the descriptor of that name is
/// replaced, or a new one is added.
pub open spec fn store_write(s: StoreView, name: Seq<char>, r: Reference) -> StoreView {
    match position_of(s, name) {
        Some(i) => s.update(i, (name, r)),
        None => s.push((name, r)),
    }
}

impl View for ReferenceStore {
    type V = StoreView;

    closed spec fn view(&self) -> StoreView {
        self.entries@.map_values(|e: StoredReference| (e.file_name@, e.reference))
    }
}

impl ReferenceStore {
    /// No two descriptors share a file name.
    pub open spec fn wf(&self) -> bool {
        names_unique(self@)
    }

    /// An empty store.
    pub fn new() -> (r: Self)
        ensures
            r.wf(),
            r@ == Seq::<(Seq<char>, Reference)>::empty(),
    {
        let r = ReferenceStore { entries: Vec::new() };
        assert(r@ =~= Seq::<(Seq<char>, Reference)>::empty());
        r
    }

    /// The number of descriptors.
    pub fn len(&self) -> (r: usize)
        ensures
            r == self@.len(),
    {
        self.entries.len()
    }

    /// Check if a mod is already installed: whether some descriptor links to
    /// the project.
    pub fn is_installed(&self, project_id: u32) -> (r: bool)
        ensures
            r == has_project(self@, project_id),
    {
        let mut i: usize = 0;
        while i < self.entries.len()
            invariant
                0 <= i <= self.entries@.len(),
                self@.len() == self.entries@.len(),
                forall|j: int| 0 <= j < i ==> (#[trigger] self@[j]).1.link.spec_project_id() != project_id,
            decreases self.entries.len() - i,
        {
            assert(self@[i as int] == (self.entries@[i as int].file_name@, self.entries@[i as int].reference));
            if self.entries[i].reference.link.project_id() == project_id {
                return true;
            }
            i = i + 1;
        }
        false
    }

    /// The record stored under a file name, if any.
    pub fn get(&self, file_name: &str) -> (r: Option<&Reference>)
        requires
            self.wf(),
        ensures
            match lookup(self@, file_name@) {
                Some(x) => r matches Some(y) && *y == x,
                None => r is None,
            },
    {
        let mut i: usize = 0;
        while i < self.entries.len()
            invariant
                0 <= i <= self.entries@.len(),
                self@.len() == self.entries@.len(),
                names_unique(self@),
                forall|j: int| 0 <= j < i ==> (#[trigger] self@[j]).0 != file_name@,
            decreases self.entries.len() - i,
        {
            assert(self@[i as int] == (self.entries@[i as int].file_name@, self.entries@[i as int].reference));
            if crate::text::str_eq(self.entries[i].file_name.as_str(), file_name) {
                assert(position_of(self@, file_name@) == Some(i as int)) by {
                    let k = choose|k: int| 0 <= k < self@.len() && (#[trigger] self@[k]).0 == file_name@;
                    if k != i as int {
                        assert(self@[k].0 == self@[i as int].0);
                    }
                }
                return Some(&self.entries[i].reference);
            }
            i = i + 1;
        }
        None
    }

    /// Writes a descriptor, replacing the one of the same file name if any.
    pub fn write(&mut self, file_name: String, reference: Reference)
        requires
            old(self).wf(),
        ensures
            final(self).wf(),
            final(self)@ == store_write(old(self)@, file_name@, reference),
    {
        let ghost s = self@;
        let mut i: usize = 0;
        while i < self.entries.len()
            invariant
                0 <= i <= self.entries@.len(),
                self@ == s,
                s == old(self)@,
                names_unique(s),
                s.len() == self.entries@.len(),
                forall|j: int| 0 <= j < i ==> (#[trigger] s[j]).0 != file_name@,
            decreases self.entries.len() - i,
        {
            assert(s[i as int] == (self.entries@[i as int].file_name@, self.entries@[i as int].reference));
            if self.entries[i].file_name == file_name {
                let ghost name = file_name@;
                assert(names_unique(s));
                assert(position_of(s, name) == Some(i as int)) by {
                    let k = choose|k: int| 0 <= k < s.len() && (#[trigger] s[k]).0 == name;
                    if k != i as int {
                        assert(s[k].0 == s[i as int].0);
                    }
                }
                self.entries.set(i, StoredReference { file_name, reference });
                assert(self@ =~= s.update(i as int, (name, reference)));
                assert(names_unique(self@)) by {
                    assert forall|a: int, b: int| 0 <= a < b < self@.len() implies (#[trigger] self@[a]).0 != (#[trigger] self@[b]).0 by {
                        assert(s[a].0 != s[b].0);
                    }
                }
                return;
            }
            i = i + 1;
        }
        let ghost name = file_name@;
        assert(position_of(s, name) is None);
        self.entries.push(StoredReference { file_name, reference });
        assert(self@ =~= s.push((name, reference)));
        assert(names_unique(self@)) by {
            assert forall|a: int, b: int| 0 <= a < b < self@.len() implies (#[trigger] self@[a]).0 != (#[trigger] self@[b]).0 by {
                if b < s.len() {
                    assert(s[a].0 != s[b].0);
                } else {
                    assert(self@[b].0 == name);
                    assert(self@[a] == s[a]);
                }
            }
        }
    }
}

/// The record stored under `name`, if any.
pub open spec fn lookup(s: StoreView, name: Seq<char>) -> Option<Reference> {
    match position_of(s, name) {
        Some(i) => Some(s[i].1),
        None => None,
    }
}

/// Reading back a descriptor just written under a file name gives the very
/// record written, field for field; the other file names keep their records.
pub proof fn reread_after_write(s: StoreView, name: Seq<char>, r: Reference, other: Seq<char>)
    requires
        names_unique(s),
    ensures
        lookup(store_write(s, name, r), name) == Some(r),
        other != name ==> lookup(store_write(s, name, r), other) == lookup(s, other),
{
    let t = store_write(s, name, r);
    match position_of(s, name) {
        Some(p) => {
            assert(t[p] == (name, r));
            assert(position_of(t, name) == Some(p)) by {
                let k = choose|k: int| 0 <= k < t.len() && (#[trigger] t[k]).0 == name;
                if k != p {
                    assert(s[k].0 == s[p].0);
                }
            }
            if other != name {
                if position_of(s, other) is Some {
                    let q = position_of(s, other)->Some_0;
                    assert(t[q] == s[q]);
                    assert(position_of(t, other) == Some(q)) by {
                        let k = choose|k: int| 0 <= k < t.len() && (#[trigger] t[k]).0 == other;
                        if k != q {
                            assert(t[k] == s[k]);
                            assert(s[k].0 == s[q].0);
                        }
                    }
                } else {
                    assert(position_of(t, other) is None) by {
                        if exists|k: int| 0 <= k < t.len() && (#[trigger] t[k]).0 == other {
                            let k = choose|k: int| 0 <= k < t.len() && (#[trigger] t[k]).0 == other;
                            assert(t[k] == s[k]);
                        }
                    }
                }
            }
        },
        None => {
            assert(t[s.len() as int] == (name, r));
            assert(position_of(t, name) == Some(s.len() as int)) by {
                let k = choose|k: int| 0 <= k < t.len() && (#[trigger] t[k]).0 == name;
                if k != s.len() {
                    assert(t[k] == s[k]);
                }
            }
            if other != name {
                if position_of(s, other) is Some {
                    let q = position_of(s, other)->Some_0;
                    assert(t[q] == s[q]);
                    assert(position_of(t, other) == Some(q)) by {
                        let k = choose|k: int| 0 <= k < t.len() && (#[trigger] t[k]).0 == other;
                        if k != q {
                            assert(t[k] == s[k]);
                            assert(s[k].0 == s[q].0);
                        }
                    }
                } else {
                    assert(position_of(t, other) is None) by {
                        if exists|k: int| 0 <= k < t.len() && (#[trigger] t[k]).0 == other {
                            let k = choose|k: int| 0 <= k < t.len() && (#[trigger] t[k]).0 == other;
                            assert(t[k] == s[k]);
                        }
                    }
                }
            }
        },
    }
}

/// Writing a descriptor and then asking whether a project is installed: the
/// written project is; any other is exactly when a descriptor under another
/// file name links to it.
pub proof fn installed_after_write(s: StoreView, name: Seq<char>, r: Reference, id: u32)
    requires
        names_unique(s),
    ensures
        has_project(store_write(s, name, r), id) <==> (r.link.spec_project_id() == id || exists|
            i: int,
        | 0 <= i < s.len() && (#[trigger] s[i]).0 != name && s[i].1.link.spec_project_id() == id),
{
    let t = store_write(s, name, r);
    match position_of(s, name) {
        Some(p) => {
            assert(t[p].1 == r);
            if has_project(t, id) {
                let i = choose|i: int| 0 <= i < t.len() && (#[trigger] t[i]).1.link.spec_project_id() == id;
                if i != p {
                    assert(s[i] == t[i]);
                    assert(s[i].0 != name) by {
                        assert(s[p].0 == name);
                    }
                }
            }
            if exists|i: int| 0 <= i < s.len() && (#[trigger] s[i]).0 != name && s[i].1.link.spec_project_id() == id {
                let i = choose|i: int| 0 <= i < s.len() && (#[trigger] s[i]).0 != name && s[i].1.link.spec_project_id() == id;
                assert(i != p);
                assert(t[i] == s[i]);
            }
        },
        None => {
            assert(t[s.len() as int].1 == r);
            if has_project(t, id) {
                let i = choose|i: int| 0 <= i < t.len() && (#[trigger] t[i]).1.link.spec_project_id() == id;
                if i < s.len() {
                    assert(s[i] == t[i]);
                }
            }
            if exists|i: int| 0 <= i < s.len() && (#[trigger] s[i]).0 != name && s[i].1.link.spec_project_id() == id {
                let i = choose|i: int| 0 <= i < s.len() && (#[trigger] s[i]).0 != name && s[i].1.link.spec_project_id() == id;
                assert(t[i] == s[i]);
            }
        },
    }
}

/// The store after writing each `(file name, record)` of `w` in turn.
pub open spec fn write_all(s: StoreView, w: Seq<(Seq<char>, Reference)>) -> StoreView
    decreases w.len(),
{
    if w.len() == 0 {
        s
    } else {
        store_write(write_all(s, w.drop_last()), w.last().0, w.last().1)
    }
}

proof fn lemma_write_all_fresh(w: Seq<(Seq<char>, Reference)>)
    requires
        names_unique(w),
    ensures
        write_all(Seq::empty(), w) == w,
    decreases w.len(),
{
    if w.len() > 0 {
        let p = w.drop_last();
        assert(names_unique(p));
        lemma_write_all_fresh(p);
        assert(position_of(p, w.last().0) is None) by {
            if exists|i: int| 0 <= i < p.len() && (#[trigger] p[i]).0 == w.last().0 {
                let i = choose|i: int| 0 <= i < p.len() && (#[trigger] p[i]).0 == w.last().0;
                assert(w[i] == p[i]);
            }
        }
        assert(p.push(w.last()) =~= w);
    }
}

/// Writing descriptors under distinct file names into an empty mods directory,
/// then asking about any project: it is installed exactly when one of the
/// written records links to it.
pub proof fn installed_after_writes(w: Seq<(Seq<char>, Reference)>, id: u32)
    requires
        names_unique(w),
    ensures
        write_all(Seq::empty(), w).len() == w.len(),
        has_project(write_all(Seq::empty(), w), id) <==> exists|k: int|
            0 <= k < w.len() && (#[trigger] w[k]).1.link.spec_project_id() == id,
{
    lemma_write_all_fresh(w);
}

/// The slug that names a mod's descriptor: the registry's slug, or, when that
/// is empty, the lowercased name with spaces replaced by hyphens.
pub open spec fn slug_spec(m: Mod) -> Seq<char> {
    if m.slug@.len() == 0 {
        spaces_to_hyphens(lower_of(m.name@))
    } else {
        m.slug@
    }
}

/// The file name of a mod's descriptor: its slug followed by `.ex.json`.
pub open spec fn reference_file_name_spec(m: Mod) -> Seq<char> {
    slug_spec(m) + ".ex.json"@
}

/// The file name under which a mod's descriptor is stored.
pub fn reference_file_name(mod_info: &Mod) -> (r: String)
    ensures
        r@ == reference_file_name_spec(*mod_info),
{
    let mut slug = if mod_info.slug.unicode_len() == 0 {
        let lower = lowercase(mod_info.name.as_str());
        replace_spaces(lower.as_str())
    } else {
        mod_info.slug.clone()
    };
    slug.append(".ex.json");
    slug
}

/// A copy of an optional string.
pub fn copy_opt_string(o: &Option<String>) -> (r: Option<String>)
    ensures
        r == *o,
{
    match o {
        Some(s) => Some(s.clone()),
        None => None,
    }
}

/// A copy of a descriptor record.
pub fn copy_reference(r: &Reference) -> (c: Reference)
    ensures
        c == *r,
{
    let link = match &r.link {
        Link::CurseForge { project_id, file_id, download_url } => Link::CurseForge {
            project_id: *project_id,
            file_id: *file_id,
            download_url: copy_opt_string(download_url),
        },
    };
    Reference { name: r.name.clone(), filename: r.filename.clone(), side: r.side, link }
}

/// The descriptor record of a mod with its chosen file and side.
pub open spec fn is_mod_reference(r: Reference, m: Mod, f: File, side: Side) -> bool {
    &&& r.name == m.name
    &&& r.filename == f.file_name
    &&& r.side == side
    &&& r.link == Link::CurseForge {
        project_id: m.id,
        file_id: f.id,
        download_url: f.download_url,
    }
}

/// Builds the descriptor record of a mod with its chosen file and side.
pub fn mod_reference(mod_info: &Mod, file: &File, side: Side) -> (r: Reference)
    ensures
        is_mod_reference(r, *mod_info, *file, side),
{
    Reference {
        name: mod_info.name.clone(),
        filename: file.file_name.clone(),
        side,
        link: Link::CurseForge {
            project_id: mod_info.id,
            file_id: file.id,
            download_url: copy_opt_string(&file.download_url),
        },
    }
}

} // verus!
