use vstd::prelude::*;
use crate::errors::MinepackError;
use crate::text::{parse_u32, parsed_u32, str_eq, views_of};

verus! {

/// The host (if any) and the path of a URL, as the `url` crate parses it;
/// `None` when the text is not a URL.
pub uninterp spec fn url_host_path(s: Seq<char>) -> Option<(Option<Seq<char>>, Seq<char>)>;

pub open spec fn opt_view(o: Option<String>) -> Option<Seq<char>> {
    match o {
        Some(s) => Some(s@),
        None => None,
    }
}

/// Relies on `url::Url::parse`, `Url::host_str` and `Url::path`: the host and
/// the path of the parsed URL, both determined by the text alone.
#[verifier::external_body]
fn url_parts(s: &str) -> (r: Option<(Option<String>, String)>)
    ensures
        match r {
            None => url_host_path(s@) is None,
            Some((h, p)) => url_host_path(s@) == Some((opt_view(h), p@)),
        },
{
    match url::Url::parse(s) {
        Ok(u) => Some((u.host_str().map(String::from), u.path().to_string())),
        Err(_) => None,
    }
}

/// Splitting a path on `/`: the segments closed so far, and the open one.
pub open spec fn split_state(p: Seq<char>) -> (Seq<Seq<char>>, Seq<char>)
    decreases p.len(),
{
    if p.len() == 0 {
        (seq![], seq![])
    } else {
        let (done, cur) = split_state(p.drop_last());
        if p.last() == '/' {
            if cur.len() > 0 {
                (done.push(cur), seq![])
            } else {
                (done, seq![])
            }
        } else {
            (done, cur.push(p.last()))
        }
    }
}

/// The non-empty `/`-separated segments of a path, in order.
pub open spec fn path_segments(p: Seq<char>) -> Seq<Seq<char>> {
    let (done, cur) = split_state(p);
    if cur.len() > 0 {
        done.push(cur)
    } else {
        done
    }
}

/// The slug and optional file id that a mod page URL names, from its host and
/// path: `https://www.curseforge.com/minecraft/mc-mods/<slug>[/files/<file-id>]`.
/// `None` when the URL has another shape.
pub open spec fn mod_url_spec(host: Option<Seq<char>>, path: Seq<char>) -> Option<
    (Seq<char>, Option<u32>),
> {
    let segs = path_segments(path);
    if host != Some("www.curseforge.com"@) {
        None
    } else if segs.len() < 3 || segs[0] != "minecraft"@ || segs[1] != "mc-mods"@ {
        None
    } else if segs.len() >= 5 && segs[3] == "files"@ {
        match parsed_u32(segs[4]) {
            Some(id) => Some((segs[2], Some(id))),
            None => None,
        }
    } else {
        Some((segs[2], None))
    }
}

/// Splits a path into its non-empty `/`-separated segments.
pub fn split_path(path: &str) -> (r: Vec<String>)
    ensures
        views_of(r@) == path_segments(path@),
{
    let n = path.unicode_len();
    let mut segs: Vec<String> = Vec::new();
    let mut start: usize = 0;
    let mut i: usize = 0;
    while i < n
        invariant
            n == path@.len(),
            0 <= start <= i <= n,
            (views_of(segs@), path@.subrange(start as int, i as int)) == split_state(
                path@.subrange(0, i as int),
            ),
        decreases n - i,
    {
        let c = path.get_char(i);
        assert(path@.subrange(0, i + 1).drop_last() =~= path@.subrange(0, i as int));
        if c == '/' {
            if start < i {
                let seg = String::from_str(path.substring_char(start, i));
                let ghost before = segs@;
                segs.push(seg);
                assert(views_of(segs@) =~= views_of(before).push(path@.subrange(start as int, i as int)));
            }
            start = i + 1;
            assert(path@.subrange(start as int, i + 1).len() == 0);
        } else {
            assert(path@.subrange(start as int, i + 1) =~= path@.subrange(start as int, i as int).push(c));
        }
        i = i + 1;
    }
    assert(path@.subrange(0, n as int) =~= path@);
    if start < n {
        let seg = String::from_str(path.substring_char(start, n));
        let ghost before = segs@;
        segs.push(seg);
        assert(views_of(segs@) =~= views_of(before).push(path@.subrange(start as int, n as int)));
    }
    segs
}

/// The outcome that `mod_url_spec` describes, as a `Result`.
pub open spec fn mod_url_result_ok(
    r: Result<(String, Option<u32>), MinepackError>,
    expected: Option<(Seq<char>, Option<u32>)>,
) -> bool {
    match expected {
        None => r == Err::<(String, Option<u32>), MinepackError>(MinepackError::InvalidCurseforgeModUrl),
        Some((slug, file_id)) => r matches Ok((s, f)) && s@ == slug && f == file_id,
    }
}

/// Reads the slug and optional file id of a mod page from the host and path of
/// its URL.
pub fn parse_mod_url_parts(host: Option<&str>, path: &str) -> (r: Result<
    (String, Option<u32>),
    MinepackError,
>)
    ensures
        mod_url_result_ok(
            r,
            mod_url_spec(
                match host {
                    Some(h) => Some(h@),
                    None => None,
                },
                path@,
            ),
        ),
{
    let ok_host = match host {
        Some(h) => str_eq(h, "www.curseforge.com"),
        None => false,
    };
    if !ok_host {
        return Err(MinepackError::InvalidCurseforgeModUrl);
    }
    let segs = split_path(path);
    proof {
        assert(views_of(segs@).len() == segs@.len());
    }
    if segs.len() < 3 {
        return Err(MinepackError::InvalidCurseforgeModUrl);
    }
    proof {
        assert(views_of(segs@)[0] == segs@[0]@);
        assert(views_of(segs@)[1] == segs@[1]@);
        assert(views_of(segs@)[2] == segs@[2]@);
    }
    if !str_eq(segs[0].as_str(), "minecraft") || !str_eq(segs[1].as_str(), "mc-mods") {
        return Err(MinepackError::InvalidCurseforgeModUrl);
    }
    let mut file_id: Option<u32> = None;
    if segs.len() >= 5 {
        proof {
            assert(views_of(segs@)[3] == segs@[3]@);
            assert(views_of(segs@)[4] == segs@[4]@);
        }
        if str_eq(segs[3].as_str(), "files") {
            match parse_u32(segs[4].as_str()) {
                Some(id) => {
                    file_id = Some(id);
                },
                None => {
                    return Err(MinepackError::InvalidCurseforgeModUrl);
                },
            }
        }
    }
    let slug = segs[2].clone();
    Ok((slug, file_id))
}

/// Parse a CurseForge mod URL to extract the slug and optional file ID. Fails
/// with `InvalidCurseforgeModUrl` when the text is no URL or not a mod page URL.
pub fn parse_curseforge_mod_url(url: &str) -> (r: Result<(String, Option<u32>), MinepackError>)
    ensures
        match url_host_path(url@) {
            None => r == Err::<(String, Option<u32>), MinepackError>(
                MinepackError::InvalidCurseforgeModUrl,
            ),
            Some((host, path)) => mod_url_result_ok(r, mod_url_spec(host, path)),
        },
{
    match url_parts(url) {
        None => Err(MinepackError::InvalidCurseforgeModUrl),
        Some((host, path)) => {
            let h = match &host {
                Some(h) => Some(h.as_str()),
                None => None,
            };
            parse_mod_url_parts(h, path.as_str())
        },
    }
}

} // verus!
