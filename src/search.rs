use vstd::prelude::*;
use crate::errors::MinepackError;
use crate::mod_url::opt_view;
use crate::schema::{Mod, SearchModsRequestQuery};
use crate::text::{decimal_text, str_eq, u32_text, views_of};

verus! {

/// The registry's id of the game Minecraft.
pub const MINECRAFT_GAME_ID: u32 = 432;

/// `parts` joined with `sep` between each two.
pub open spec fn joined(parts: Seq<Seq<char>>, sep: Seq<char>) -> Seq<char>
    decreases parts.len(),
{
    if parts.len() == 0 {
        seq![]
    } else if parts.len() == 1 {
        parts[0]
    } else {
        joined(parts.drop_last(), sep) + sep + parts.last()
    }
}

pub open spec fn decimals(ids: Seq<u32>) -> Seq<Seq<char>> {
    ids.map_values(|x: u32| decimal_text(x as nat))
}

/// Joins strings with commas.
pub fn join_with_commas(parts: &Vec<String>) -> (r: String)
    ensures
        r@ == joined(views_of(parts@), ","@),
{
    let mut r = String::new();
    let mut i: usize = 0;
    while i < parts.len()
        invariant
            0 <= i <= parts@.len(),
            r@ == joined(views_of(parts@).subrange(0, i as int), ","@),
        decreases parts.len() - i,
    {
        let ghost pre = views_of(parts@).subrange(0, i as int);
        let ghost next = views_of(parts@).subrange(0, i + 1);
        assert(next.drop_last() =~= pre);
        assert(next.last() == parts@[i as int]@);
        if i > 0 {
            r.append(",");
        } else {
            assert(r@ =~= seq![]);
            assert(next.len() == 1);
        }
        r.append(parts[i].as_str());
        proof {
            if i == 0 {
                assert(r@ =~= next[0]);
            }
        }
        i = i + 1;
    }
    assert(views_of(parts@).subrange(0, parts@.len() as int) =~= views_of(parts@));
    r
}

/// Joins numbers, written in decimal, with commas.
pub fn join_ids_with_commas(ids: &Vec<u32>) -> (r: String)
    ensures
        r@ == joined(decimals(ids@), ","@),
{
    let mut texts: Vec<String> = Vec::new();
    let mut i: usize = 0;
    while i < ids.len()
        invariant
            0 <= i <= ids@.len(),
            texts@.len() == i,
            forall|j: int| 0 <= j < i ==> #[trigger] texts@[j]@ == decimal_text(ids@[j] as nat),
        decreases ids.len() - i,
    {
        texts.push(u32_text(ids[i]));
        i = i + 1;
    }
    assert(views_of(texts@) =~= decimals(ids@));
    join_with_commas(&texts)
}

/// The parameter `key` with value `v`, when there is a value.
pub open spec fn opt_pair(key: Seq<char>, v: Option<Seq<char>>) -> Seq<(Seq<char>, Seq<char>)> {
    match v {
        Some(x) => seq![(key, x)],
        None => seq![],
    }
}

pub open spec fn opt_decimal(o: Option<u32>) -> Option<Seq<char>> {
    match o {
        Some(x) => Some(decimal_text(x as nat)),
        None => None,
    }
}

/// The query parameters of a search request, in order: the game id, then each
/// parameter that is set.
pub open spec fn query_pairs_spec(q: SearchModsRequestQuery) -> Seq<(Seq<char>, Seq<char>)> {
    seq![("gameId"@, decimal_text(432))]
        + opt_pair("classId"@, opt_decimal(q.class_id))
        + opt_pair("categoryId"@, opt_decimal(q.category_id))
        + opt_pair("categoryIds"@, match q.category_ids {
            Some(ids) => Some(joined(decimals(ids@), ","@)),
            None => None,
        })
        + opt_pair("gameVersion"@, opt_view(q.game_version))
        + opt_pair("gameVersions"@, match q.game_versions {
            Some(v) => Some(joined(views_of(v@), ","@)),
            None => None,
        })
        + opt_pair("searchFilter"@, opt_view(q.search_filter))
        + opt_pair("sort"@, match q.sort_field {
            Some(f) => Some(decimal_text(f.spec_code() as nat)),
            None => None,
        })
        + opt_pair("sortOrder"@, match q.sort_order {
            Some(o) => Some(o.spec_text()),
            None => None,
        })
        + opt_pair("modLoaderType"@, match q.mod_loader_type {
            Some(t) => Some(decimal_text(t.spec_code() as nat)),
            None => None,
        })
        + opt_pair("gameVersionTypeId"@, opt_decimal(q.game_version_type_id))
        + opt_pair("authorId"@, opt_decimal(q.author_id))
        + opt_pair("primaryAuthorId"@, opt_decimal(q.primary_author_id))
        + opt_pair("slug"@, opt_view(q.slug))
        + opt_pair("index"@, opt_decimal(q.index))
        + opt_pair("pageSize"@, opt_decimal(q.page_size))
}

pub open spec fn pair_views(v: Seq<(String, String)>) -> Seq<(Seq<char>, Seq<char>)> {
    v.map_values(|p: (String, String)| (p.0@, p.1@))
}

fn push_pair(pairs: &mut Vec<(String, String)>, key: &str, v: Option<String>)
    ensures
        pair_views(final(pairs)@) == pair_views(old(pairs)@) + opt_pair(key@, opt_view(v)),
{
    match v {
        Some(x) => {
            let ghost x_view = x@;
            pairs.push((String::from_str(key), x));
            assert(pair_views(pairs@) =~= pair_views(old(pairs)@) + seq![(key@, x_view)]);
        },
        None => {
            assert(pair_views(pairs@) =~= pair_views(old(pairs)@) + seq![]);
        },
    }
}

fn opt_u32_text(o: Option<u32>) -> (r: Option<String>)
    ensures
        opt_view(r) == opt_decimal(o),
{
    match o {
        Some(x) => Some(u32_text(x)),
        None => None,
    }
}

fn opt_string(o: &Option<String>) -> (r: Option<String>)
    ensures
        opt_view(r) == opt_view(*o),
{
    match o {
        Some(x) => Some(x.clone()),
        None => None,
    }
}

impl SearchModsRequestQuery {
    /// A query for the mod with this slug, for a game version.
    pub fn by_slug(slug: String, game_version: String) -> (r: Self)
        ensures
            r.slug == Some(slug),
            r.game_version == Some(game_version),
            r.search_filter is None,
    {
        SearchModsRequestQuery {
            game_id: None,
            class_id: None,
            category_id: None,
            category_ids: None,
            game_version: Some(game_version),
            game_versions: None,
            search_filter: None,
            sort_field: None,
            sort_order: None,
            mod_loader_type: None,
            game_version_type_id: None,
            author_id: None,
            primary_author_id: None,
            slug: Some(slug),
            index: None,
            page_size: None,
        }
    }

    /// A free-text query, for a game version.
    pub fn by_text(search_filter: String, game_version: String) -> (r: Self)
        ensures
            r.search_filter == Some(search_filter),
            r.game_version == Some(game_version),
            r.slug is None,
    {
        SearchModsRequestQuery {
            game_id: None,
            class_id: None,
            category_id: None,
            category_ids: None,
            game_version: Some(game_version),
            game_versions: None,
            search_filter: Some(search_filter),
            sort_field: None,
            sort_order: None,
            mod_loader_type: None,
            game_version_type_id: None,
            author_id: None,
            primary_author_id: None,
            slug: None,
            index: None,
            page_size: None,
        }
    }

    /// The query-string parameters of the search request, in order.
    pub fn query_pairs(&self) -> (r: Vec<(String, String)>)
        ensures
            pair_views(r@) == query_pairs_spec(*self),
    {
        let mut pairs: Vec<(String, String)> = Vec::new();
        push_pair(&mut pairs, "gameId", Some(u32_text(MINECRAFT_GAME_ID)));
        assert(pair_views(pairs@) =~= seq![("gameId"@, decimal_text(432))]);
        push_pair(&mut pairs, "classId", opt_u32_text(self.class_id));
        push_pair(&mut pairs, "categoryId", opt_u32_text(self.category_id));
        let category_ids = match &self.category_ids {
            Some(ids) => Some(join_ids_with_commas(ids)),
            None => None,
        };
        push_pair(&mut pairs, "categoryIds", category_ids);
        push_pair(&mut pairs, "gameVersion", opt_string(&self.game_version));
        let game_versions = match &self.game_versions {
            Some(v) => Some(join_with_commas(v)),
            None => None,
        };
        push_pair(&mut pairs, "gameVersions", game_versions);
        push_pair(&mut pairs, "searchFilter", opt_string(&self.search_filter));
        let sort = match &self.sort_field {
            Some(f) => Some(u32_text(f.code())),
            None => None,
        };
        push_pair(&mut pairs, "sort", sort);
        let order = match &self.sort_order {
            Some(o) => Some(o.to_string()),
            None => None,
        };
        push_pair(&mut pairs, "sortOrder", order);
        let loader = match &self.mod_loader_type {
            Some(t) => Some(u32_text(t.code())),
            None => None,
        };
        push_pair(&mut pairs, "modLoaderType", loader);
        push_pair(&mut pairs, "gameVersionTypeId", opt_u32_text(self.game_version_type_id));
        push_pair(&mut pairs, "authorId", opt_u32_text(self.author_id));
        push_pair(&mut pairs, "primaryAuthorId", opt_u32_text(self.primary_author_id));
        push_pair(&mut pairs, "slug", opt_string(&self.slug));
        push_pair(&mut pairs, "index", opt_u32_text(self.index));
        push_pair(&mut pairs, "pageSize", opt_u32_text(self.page_size));
        pairs
    }
}

/// The first mod of the search results whose slug is `slug`, if any.
pub open spec fn first_with_slug(results: Seq<Mod>, slug: Seq<char>) -> Option<int>
    decreases results.len(),
{
    if results.len() == 0 {
        None
    } else if results[0].slug@ == slug {
        Some(0)
    } else {
        match first_with_slug(results.drop_first(), slug) {
            Some(i) => Some(i + 1),
            None => None,
        }
    }
}

/// The id of the mod among the search results whose slug matches exactly (the
/// first such one). Fails with `NoModsFound` when the results are empty or
/// none matches.
pub fn find_mod_by_slug(results: &Vec<Mod>, slug: &str) -> (r: Result<u32, MinepackError>)
    ensures
        match first_with_slug(results@, slug@) {
            Some(i) => r == Ok::<u32, MinepackError>(results@[i].id),
            None => r matches Err(MinepackError::NoModsFound(s)) && s@ == slug@,
        },
{
    let mut i: usize = 0;
    assert(results@.subrange(0, results@.len() as int) =~= results@);
    while i < results.len()
        invariant
            0 <= i <= results@.len(),
            first_with_slug(results@, slug@) == match first_with_slug(
                results@.subrange(i as int, results@.len() as int),
                slug@,
            ) {
                Some(k) => Some(k + i),
                None => None,
            },
        decreases results.len() - i,
    {
        let ghost rest = results@.subrange(i as int, results@.len() as int);
        assert(rest.drop_first() =~= results@.subrange(i + 1, results@.len() as int));
        assert(rest[0] == results@[i as int]);
        if str_eq(results[i].slug.as_str(), slug) {
            return Ok(results[i].id);
        }
        i = i + 1;
    }
    assert(results@.subrange(i as int, results@.len() as int).len() == 0);
    Err(MinepackError::NoModsFound(String::from_str(slug)))
}

/// Refuses an empty list of search results with `NoModsFound`.
pub fn require_results(results: &Vec<Mod>, query: &str) -> (r: Result<(), MinepackError>)
    ensures
        results@.len() == 0 ==> (r matches Err(MinepackError::NoModsFound(s)) && s@ == query@),
        results@.len() > 0 ==> r is Ok,
{
    if results.len() == 0 {
        Err(MinepackError::NoModsFound(String::from_str(query)))
    } else {
        Ok(())
    }
}

} // verus!
