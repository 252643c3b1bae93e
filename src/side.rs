use vstd::prelude::*;
use crate::config::Side;
use crate::errors::MinepackError;
use crate::schema::File;
use crate::text::{contains_text, has_infix, lower_of, lowercase, views_of};

verus! {

/// Whether some string of `vs` holds `pat`.
pub open spec fn some_has_infix(vs: Seq<Seq<char>>, pat: Seq<char>) -> bool {
    exists|i: int| 0 <= i < vs.len() && has_infix(#[trigger] vs[i], pat)
}

/// Whether a lowercased name holds one of the keywords of client-only mods.
pub open spec fn says_client(s: Seq<char>) -> bool {
    has_infix(s, "shader"@) || has_infix(s, "optifine"@) || has_infix(s, "texture"@)
        || has_infix(s, "resource"@) || has_infix(s, "client"@)
}

/// Whether a lowercased mod name or file name marks a client-only mod.
pub open spec fn names_say_client(name: Seq<char>, file: Seq<char>) -> bool {
    says_client(name) || says_client(file)
}

/// Whether a lowercased mod name or file name marks a server-only mod.
pub open spec fn names_say_server(name: Seq<char>, file: Seq<char>) -> bool {
    has_infix(name, "server"@) || has_infix(file, "server"@)
}

/// The side of a mod, from its server-pack flag and from the lowercased game
/// versions, mod name and file name of its file; the first rule that applies wins.
pub open spec fn side_rule(
    server_pack: bool,
    versions: Seq<Seq<char>>,
    name: Seq<char>,
    file: Seq<char>,
) -> Side {
    if server_pack {
        Side::Server
    } else if some_has_infix(versions, "client"@) && some_has_infix(versions, "server"@) {
        Side::Both
    } else if some_has_infix(versions, "client"@) {
        Side::Client
    } else if some_has_infix(versions, "server"@) {
        Side::Server
    } else if names_say_client(name, file) {
        Side::Client
    } else if names_say_server(name, file) {
        Side::Server
    } else {
        Side::Both
    }
}

/// The lowercased forms of a list of strings.
pub open spec fn lowered_all(vs: Seq<String>) -> Seq<Seq<char>> {
    vs.map_values(|v: String| lower_of(v@))
}

fn client_keywords(s: &str) -> (r: bool)
    ensures
        r == says_client(s@),
{
    contains_text(s, "shader") || contains_text(s, "optifine") || contains_text(s, "texture")
        || contains_text(s, "resource") || contains_text(s, "client")
}

fn any_contains(vs: &Vec<String>, pat: &str) -> (r: bool)
    ensures
        r == some_has_infix(views_of(vs@), pat@),
{
    let mut i: usize = 0;
    while i < vs.len()
        invariant
            0 <= i <= vs.len(),
            forall|j: int| 0 <= j < i ==> !has_infix(#[trigger] vs@[j]@, pat@),
        decreases vs.len() - i,
    {
        if contains_text(vs[i].as_str(), pat) {
            assert(views_of(vs@)[i as int] == vs@[i as int]@);
            return true;
        }
        i = i + 1;
    }
    assert forall|j: int| 0 <= j < views_of(vs@).len() implies !has_infix(
        #[trigger] views_of(vs@)[j],
        pat@,
    ) by {
        assert(views_of(vs@)[j] == vs@[j]@);
    }
    false
}

/// Classifies a mod from its already lowercased game versions, name and file name.
pub fn side_from_lowered(
    is_server_pack: Option<bool>,
    versions_lower: &Vec<String>,
    name_lower: &str,
    file_lower: &str,
) -> (r: Side)
    ensures
        r == side_rule(
            is_server_pack == Some(true),
            views_of(versions_lower@),
            name_lower@,
            file_lower@,
        ),
{
    if let Some(true) = is_server_pack {
        return Side::Server;
    }
    let client = any_contains(versions_lower, "client");
    let server = any_contains(versions_lower, "server");
    if client && server {
        return Side::Both;
    }
    if client {
        return Side::Client;
    }
    if server {
        return Side::Server;
    }
    if client_keywords(name_lower) || client_keywords(file_lower) {
        return Side::Client;
    }
    if contains_text(name_lower, "server") || contains_text(file_lower, "server") {
        return Side::Server;
    }
    Side::Both
}

/// Determines which side (client/server/both) the mod is meant for. A heuristic:
/// the server-pack flag first, then the words `client` and `server` in the file's
/// game versions, then keywords (shader, optifine, texture, resource, client;
/// then server) in the mod name or the file name, case-insensitively.
pub fn determine_mod_side_cf(mod_name: &str, file: &File) -> (r: Result<Side, MinepackError>)
    ensures
        r == Ok::<Side, MinepackError>(
            side_rule(
                file.is_server_pack == Some(true),
                lowered_all(file.game_versions@),
                lower_of(mod_name@),
                lower_of(file.file_name@),
            ),
        ),
        file.is_server_pack == Some(true) ==> r == Ok::<Side, MinepackError>(Side::Server),
{
    let mut versions: Vec<String> = Vec::new();
    let mut i: usize = 0;
    while i < file.game_versions.len()
        invariant
            0 <= i <= file.game_versions.len(),
            versions@.len() == i,
            forall|j: int|
                0 <= j < i ==> #[trigger] versions@[j]@ == lower_of(file.game_versions@[j]@),
        decreases file.game_versions.len() - i,
    {
        versions.push(lowercase(file.game_versions[i].as_str()));
        i = i + 1;
    }
    let name_lower = lowercase(mod_name);
    let file_lower = lowercase(file.file_name.as_str());
    let side = side_from_lowered(file.is_server_pack, &versions, name_lower.as_str(), file_lower.as_str());
    assert(views_of(versions@) =~= lowered_all(file.game_versions@));
    Ok(side)
}

} // verus!
