use vstd::prelude::*;
use vstd::string::StringExecFns;

use crate::errors::LaunchError;
use crate::numfmt::{append_dec_i64, dec_int};

verus! {

/// The game executable's expected place under a game directory.
pub open spec fn spec_game_executable_path(game_dir: Seq<char>) -> Seq<char> {
    game_dir + "/game/ffxiv_dx11.exe"@
}

/// The path the direct-execution launcher resolves the game executable at.
pub fn game_executable_path(game_dir: &str) -> (r: String)
    ensures
        r@ == spec_game_executable_path(game_dir@),
{
    let mut out = game_dir.to_owned();
    out.append("/game/ffxiv_dx11.exe");
    out
}

/// The direct launcher's decision once the filesystem has said whether the
/// executable exists: only an existing executable may be spawned.
pub fn direct_launch_check(exe_exists: bool) -> (r: Result<(), LaunchError>)
    ensures
        r == (if exe_exists {
            Ok::<(), LaunchError>(())
        } else {
            Err::<(), LaunchError>(LaunchError::ExecutableNotFound)
        }),
{
    if exe_exists {
        Ok(())
    } else {
        Err(LaunchError::ExecutableNotFound)
    }
}

/// The direct launcher's verdict on the game process's end: success exactly
/// when the process reported success; otherwise the exit code — absent when
/// the process was ended by a signal — is surfaced.
pub fn direct_launch_exit(success: bool, code: Option<i32>) -> (r: Result<(), LaunchError>)
    ensures
        r == (if success {
            Ok::<(), LaunchError>(())
        } else {
            Err::<(), LaunchError>(LaunchError::AbnormalExit(code))
        }),
{
    if success {
        Ok(())
    } else {
        Err(LaunchError::AbnormalExit(code))
    }
}

/// The delegated launcher's decision once the front end's presence is known:
/// without the front end nothing further is tried.
pub fn delegated_install_check(installed: bool) -> (r: Result<(), LaunchError>)
    ensures
        r == (if installed {
            Ok::<(), LaunchError>(())
        } else {
            Err::<(), LaunchError>(LaunchError::DependencyMissing)
        }),
{
    if installed {
        Ok(())
    } else {
        Err(LaunchError::DependencyMissing)
    }
}

/// What the front end's catalog listing parses to: for each entry its slug
/// and its id, when the listing is a readable array at all.
pub uninterp spec fn lutris_catalog_of(text: Seq<char>) -> Option<
    Seq<(Option<Seq<char>>, Option<i64>)>,
>;

/// The value of the parsed catalog entries, for stating contracts.
pub open spec fn catalog_entries_view(v: Seq<(Option<String>, Option<i64>)>) -> Seq<
    (Option<Seq<char>>, Option<i64>),
> {
    Seq::new(
        v.len(),
        |i: int|
            (
                match v[i].0 {
                    Some(s) => Some(s@),
                    None => None,
                },
                v[i].1,
            ),
    )
}

/// Relies on serde_json's `from_str` for `Vec<Value>`, `Value::get`,
/// `Value::as_str` and `Value::as_i64`: parses the front end's catalog
/// listing and hands each entry out as its `slug` and `id` fields. The
/// outcome is a function of the text alone.
#[verifier::external_body]
fn parse_catalog(text: &str) -> (r: Option<Vec<(Option<String>, Option<i64>)>>)
    ensures
        r is Some <==> lutris_catalog_of(text@) is Some,
        r matches Some(v) ==> lutris_catalog_of(text@) == Some(catalog_entries_view(v@)),
{
    let vals: Vec<serde_json::Value> = match serde_json::from_str(text) {
        Ok(v) => v,
        Err(_) => return None,
    };
    let mut out: Vec<(Option<String>, Option<i64>)> = Vec::with_capacity(vals.len());
    for v in &vals {
        let slug = v.get("slug").and_then(|s| s.as_str()).map(|s| s.to_owned());
        let id = v.get("id").and_then(|x| x.as_i64());
        out.push((slug, id));
    }
    Some(out)
}

/// The id the catalog yields for the pre-registered game: the id field of
/// the first entry whose slug matches, if that entry has one.
pub open spec fn spec_find_game_id(entries: Seq<(Option<Seq<char>>, Option<i64>)>) -> Option<
    i64,
>
    decreases entries.len(),
{
    if entries.len() == 0 {
        None
    } else if entries[0].0 == Some("ffxivsapphire"@) {
        entries[0].1
    } else {
        spec_find_game_id(entries.drop_first())
    }
}

/// Picks the pre-registered game's id out of the parsed catalog entries.
pub fn find_game_id(entries: &Vec<(Option<String>, Option<i64>)>) -> (r: Option<i64>)
    ensures
        r == spec_find_game_id(catalog_entries_view(entries@)),
{
    let ghost es = catalog_entries_view(entries@);
    let needle = "ffxivsapphire".to_owned();
    let n = entries.len();
    let mut i: usize = 0;
    proof {
        assert(es.skip(0) =~= es);
    }
    while i < n
        invariant
            i <= n,
            n == entries@.len(),
            es == catalog_entries_view(entries@),
            needle@ == "ffxivsapphire"@,
            spec_find_game_id(es) == spec_find_game_id(es.skip(i as int)),
        decreases n - i,
    {
        let matched = match &entries[i].0 {
            Some(s) => *s == needle,
            None => false,
        };
        proof {
            assert(es.skip(i as int)[0] == es[i as int]);
            assert(es.skip(i as int).drop_first() =~= es.skip(i + 1));
        }
        if matched {
            return entries[i].1;
        }
        i = i + 1;
    }
    proof {
        assert(es.skip(n as int) =~= Seq::<(Option<Seq<char>>, Option<i64>)>::empty());
    }
    None
}

/// Looks the pre-registered game up in the front end's catalog listing: the
/// first entry whose slug matches supplies the id; an unreadable listing, no
/// matching entry, or a matching entry without an id all mean the game is
/// not configured in the front end.
pub fn resolve_game_id(catalog_text: &str) -> (r: Result<i64, LaunchError>)
    ensures
        r matches Ok(id) ==> (lutris_catalog_of(catalog_text@) matches Some(es)
            && spec_find_game_id(es) == Some(id)),
        r matches Err(e) ==> e == LaunchError::GameNotConfigured,
        r is Err <==> (lutris_catalog_of(catalog_text@) is None || spec_find_game_id(
            lutris_catalog_of(catalog_text@).unwrap(),
        ) is None),
{
    let entries = match parse_catalog(catalog_text) {
        Some(v) => v,
        None => {
            return Err(LaunchError::GameNotConfigured);
        },
    };
    match find_game_id(&entries) {
        Some(id) => Ok(id),
        None => Err(LaunchError::GameNotConfigured),
    }
}

/// The front end's start command target for a catalog id.
pub open spec fn spec_rungame_uri(id: int) -> Seq<char> {
    "lutris:rungameid/"@ + dec_int(id)
}

/// The command target handed to the front end to start the game by its
/// catalog id.
pub fn rungame_uri(id: i64) -> (r: String)
    ensures
        r@ == spec_rungame_uri(id as int),
{
    let mut out = "lutris:rungameid/".to_owned();
    append_dec_i64(&mut out, id);
    proof {
        assert(out@ =~= spec_rungame_uri(id as int));
    }
    out
}

} // verus!
