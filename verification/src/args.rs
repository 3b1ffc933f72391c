use vstd::prelude::*;
use vstd::string::StringExecFns;

use crate::encoder::{encode_game_arg, token_of, token_shape};
use crate::errors::{ErrorKind, RepositoryReadError};
use crate::numfmt::{dec_int, i64_to_dec_string};
use crate::session::{CoreSettings, SessionDescriptor, SessionView};

verus! {

/// The pairs before the lobby slots, in order: the data-path and sqpack
/// flags, the session's entitled expansion, id, region and language, the
/// installation's version, and the gateway host.
pub open spec fn fixed_arg_pairs(s: SessionView, version: Seq<char>) -> Seq<
    (Seq<char>, Seq<char>),
> {
    seq![
        ("DEV.DataPathType"@, "1"@),
        ("DEV.UseSqPack"@, "1"@),
        ("DEV.MaxEntitledExpansionID"@, dec_int(s.max_expansion)),
        ("DEV.TestSID"@, s.sid),
        ("SYS.Region"@, dec_int(s.region)),
        ("language"@, dec_int(s.language)),
        ("ver"@, version),
        ("DEV.GMServerHost"@, s.frontier_host),
    ]
}

/// The eight numbered lobby slots: for every slot a host entry copying the
/// session's single lobby host, then a port entry with the fixed port.
pub open spec fn lobby_arg_pairs(s: SessionView) -> Seq<(Seq<char>, Seq<char>)> {
    seq![
        ("DEV.LobbyHost01"@, s.lobby_host),
        ("DEV.LobbyPort01"@, "54994"@),
        ("DEV.LobbyHost02"@, s.lobby_host),
        ("DEV.LobbyPort02"@, "54994"@),
        ("DEV.LobbyHost03"@, s.lobby_host),
        ("DEV.LobbyPort03"@, "54994"@),
        ("DEV.LobbyHost04"@, s.lobby_host),
        ("DEV.LobbyPort04"@, "54994"@),
        ("DEV.LobbyHost05"@, s.lobby_host),
        ("DEV.LobbyPort05"@, "54994"@),
        ("DEV.LobbyHost06"@, s.lobby_host),
        ("DEV.LobbyPort06"@, "54994"@),
        ("DEV.LobbyHost07"@, s.lobby_host),
        ("DEV.LobbyPort07"@, "54994"@),
        ("DEV.LobbyHost08"@, s.lobby_host),
        ("DEV.LobbyPort08"@, "54994"@),
    ]
}

/// The whole ordered argument list for a session and a version string.
pub open spec fn game_arg_pairs(s: SessionView, version: Seq<char>) -> Seq<
    (Seq<char>, Seq<char>),
> {
    fixed_arg_pairs(s, version) + lobby_arg_pairs(s)
}

/// One serialized pair: ` /<key> =<value>`.
pub open spec fn serialized_pair(p: (Seq<char>, Seq<char>)) -> Seq<char> {
    " /"@ + p.0 + " ="@ + p.1
}

/// The serialized renderings of the pairs, joined with no separator.
pub open spec fn serialized_pairs(ps: Seq<(Seq<char>, Seq<char>)>) -> Seq<char>
    decreases ps.len(),
{
    if ps.len() == 0 {
        Seq::empty()
    } else {
        serialized_pairs(ps.drop_last()) + serialized_pair(ps.last())
    }
}

/// The plaintext argument string the encoder consumes.
pub open spec fn game_args_plaintext(s: SessionView, version: Seq<char>) -> Seq<char> {
    serialized_pairs(game_arg_pairs(s, version))
}

/// The ordered argument list; insertion order is the textual order of the
/// final string, and the list is never changed once built.
pub struct GameArgumentSet {
    pub pairs: Vec<(String, String)>,
}

impl View for GameArgumentSet {
    type V = Seq<(Seq<char>, Seq<char>)>;

    open spec fn view(&self) -> Seq<(Seq<char>, Seq<char>)> {
        Seq::new(self.pairs@.len(), |i: int| (self.pairs@[i].0@, self.pairs@[i].1@))
    }
}

/// Assembles the ordered argument list from a session and the installation's
/// version string.
pub fn build_argument_set(session: &SessionDescriptor, version: &str) -> (r: GameArgumentSet)
    ensures
        r@ == game_arg_pairs(session@, version@),
{
    let mut pairs: Vec<(String, String)> = Vec::new();
    pairs.push(("DEV.DataPathType".to_owned(), "1".to_owned()));
    pairs.push(("DEV.UseSqPack".to_owned(), "1".to_owned()));
    pairs.push((
        "DEV.MaxEntitledExpansionID".to_owned(),
        i64_to_dec_string(session.max_expansion as i64),
    ));
    pairs.push(("DEV.TestSID".to_owned(), session.sid.clone()));
    pairs.push(("SYS.Region".to_owned(), i64_to_dec_string(session.region as i64)));
    pairs.push(("language".to_owned(), i64_to_dec_string(session.language as i64)));
    pairs.push(("ver".to_owned(), version.to_owned()));
    pairs.push(("DEV.GMServerHost".to_owned(), session.frontier_host.clone()));
    pairs.push(("DEV.LobbyHost01".to_owned(), session.lobby_host.clone()));
    pairs.push(("DEV.LobbyPort01".to_owned(), "54994".to_owned()));
    pairs.push(("DEV.LobbyHost02".to_owned(), session.lobby_host.clone()));
    pairs.push(("DEV.LobbyPort02".to_owned(), "54994".to_owned()));
    pairs.push(("DEV.LobbyHost03".to_owned(), session.lobby_host.clone()));
    pairs.push(("DEV.LobbyPort03".to_owned(), "54994".to_owned()));
    pairs.push(("DEV.LobbyHost04".to_owned(), session.lobby_host.clone()));
    pairs.push(("DEV.LobbyPort04".to_owned(), "54994".to_owned()));
    pairs.push(("DEV.LobbyHost05".to_owned(), session.lobby_host.clone()));
    pairs.push(("DEV.LobbyPort05".to_owned(), "54994".to_owned()));
    pairs.push(("DEV.LobbyHost06".to_owned(), session.lobby_host.clone()));
    pairs.push(("DEV.LobbyPort06".to_owned(), "54994".to_owned()));
    pairs.push(("DEV.LobbyHost07".to_owned(), session.lobby_host.clone()));
    pairs.push(("DEV.LobbyPort07".to_owned(), "54994".to_owned()));
    pairs.push(("DEV.LobbyHost08".to_owned(), session.lobby_host.clone()));
    pairs.push(("DEV.LobbyPort08".to_owned(), "54994".to_owned()));
    let r = GameArgumentSet { pairs };
    proof {
        assert(r@ =~= game_arg_pairs(session@, version@));
    }
    r
}

/// Serializes the argument list: every pair as ` /<key> =<value>`, joined in
/// order.
pub fn serialize_argument_set(set: &GameArgumentSet) -> (r: String)
    ensures
        r@ == serialized_pairs(set@),
{
    let mut out = String::new();
    let n = set.pairs.len();
    let mut i: usize = 0;
    while i < n
        invariant
            i <= n,
            n == set.pairs@.len(),
            out@ =~= serialized_pairs(set@.subrange(0, i as int)),
        decreases n - i,
    {
        let p = &set.pairs[i];
        out.append(" /");
        out.append(p.0.as_str());
        out.append(" =");
        out.append(p.1.as_str());
        proof {
            assert(set@.subrange(0, i + 1).drop_last() =~= set@.subrange(0, i as int));
            assert(set@.subrange(0, i + 1).last() == set@[i as int]);
            assert(out@ =~= serialized_pairs(set@.subrange(0, i + 1)));
        }
        i = i + 1;
    }
    proof {
        assert(set@.subrange(0, n as int) =~= set@);
    }
    out
}

/// Builds the plaintext argument string for a session and a version string.
pub fn build_game_args(session: &SessionDescriptor, version: &str) -> (r: String)
    ensures
        r@ == game_args_plaintext(session@, version@),
{
    let set = build_argument_set(session, version);
    serialize_argument_set(&set)
}

/// A key of one of the eight numbered lobby-host entries.
pub open spec fn is_lobby_host_key(k: Seq<char>) -> bool {
    ||| k == "DEV.LobbyHost01"@
    ||| k == "DEV.LobbyHost02"@
    ||| k == "DEV.LobbyHost03"@
    ||| k == "DEV.LobbyHost04"@
    ||| k == "DEV.LobbyHost05"@
    ||| k == "DEV.LobbyHost06"@
    ||| k == "DEV.LobbyHost07"@
    ||| k == "DEV.LobbyHost08"@
}

/// A key of one of the eight numbered lobby-port entries.
pub open spec fn is_lobby_port_key(k: Seq<char>) -> bool {
    ||| k == "DEV.LobbyPort01"@
    ||| k == "DEV.LobbyPort02"@
    ||| k == "DEV.LobbyPort03"@
    ||| k == "DEV.LobbyPort04"@
    ||| k == "DEV.LobbyPort05"@
    ||| k == "DEV.LobbyPort06"@
    ||| k == "DEV.LobbyPort07"@
    ||| k == "DEV.LobbyPort08"@
}

/// Law: whatever the session and version, the argument list holds exactly
/// eight lobby-host entries and exactly eight lobby-port entries — the
/// sixteen trailing positions, hosts at the even offsets and ports at the
/// odd ones — and every host entry copies the session's single lobby host
/// while every port entry carries the fixed port.
pub proof fn lemma_lobby_slots(s: SessionView, version: Seq<char>)
    ensures
        game_arg_pairs(s, version).len() == 24,
        forall|j: int|
            0 <= j < 24 ==> (is_lobby_host_key(#[trigger] game_arg_pairs(s, version)[j].0) <==> (8
                <= j && (j - 8) % 2 == 0)),
        forall|j: int|
            0 <= j < 24 ==> (is_lobby_port_key(#[trigger] game_arg_pairs(s, version)[j].0) <==> (9
                <= j && (j - 9) % 2 == 0)),
        forall|j: int|
            8 <= j < 24 && (j - 8) % 2 == 0 ==> #[trigger] game_arg_pairs(s, version)[j].1
                == s.lobby_host,
        forall|j: int|
            9 <= j < 24 && (j - 9) % 2 == 0 ==> #[trigger] game_arg_pairs(s, version)[j].1
                == "54994"@,
{
    reveal_strlit("DEV.DataPathType");
    reveal_strlit("DEV.UseSqPack");
    reveal_strlit("DEV.MaxEntitledExpansionID");
    reveal_strlit("DEV.TestSID");
    reveal_strlit("SYS.Region");
    reveal_strlit("language");
    reveal_strlit("ver");
    reveal_strlit("DEV.GMServerHost");
    reveal_strlit("DEV.LobbyHost01");
    reveal_strlit("DEV.LobbyHost02");
    reveal_strlit("DEV.LobbyHost03");
    reveal_strlit("DEV.LobbyHost04");
    reveal_strlit("DEV.LobbyHost05");
    reveal_strlit("DEV.LobbyHost06");
    reveal_strlit("DEV.LobbyHost07");
    reveal_strlit("DEV.LobbyHost08");
    reveal_strlit("DEV.LobbyPort01");
    reveal_strlit("DEV.LobbyPort02");
    reveal_strlit("DEV.LobbyPort03");
    reveal_strlit("DEV.LobbyPort04");
    reveal_strlit("DEV.LobbyPort05");
    reveal_strlit("DEV.LobbyPort06");
    reveal_strlit("DEV.LobbyPort07");
    reveal_strlit("DEV.LobbyPort08");
    assert("DEV.LobbyHost01"@[9] == 'H');
    assert("DEV.LobbyPort01"@[9] == 'P');
    assert("DEV.LobbyHost02"@[9] == 'H');
    assert("DEV.LobbyPort02"@[9] == 'P');
    assert("DEV.LobbyHost03"@[9] == 'H');
    assert("DEV.LobbyPort03"@[9] == 'P');
    assert("DEV.LobbyHost04"@[9] == 'H');
    assert("DEV.LobbyPort04"@[9] == 'P');
    assert("DEV.LobbyHost05"@[9] == 'H');
    assert("DEV.LobbyPort05"@[9] == 'P');
    assert("DEV.LobbyHost06"@[9] == 'H');
    assert("DEV.LobbyPort06"@[9] == 'P');
    assert("DEV.LobbyHost07"@[9] == 'H');
    assert("DEV.LobbyPort07"@[9] == 'P');
    assert("DEV.LobbyHost08"@[9] == 'H');
    assert("DEV.LobbyPort08"@[9] == 'P');
    let ga = game_arg_pairs(s, version);
    assert forall|j: int| 0 <= j < 24 implies ((is_lobby_host_key(#[trigger] ga[j].0) <==> (8 <= j && (j - 8) % 2 == 0)) && (is_lobby_port_key(ga[j].0) <==> (9 <= j && (j - 9) % 2 == 0)) && ((8 <= j && (j - 8) % 2 == 0) ==> ga[j].1 == s.lobby_host) && ((9 <= j && (j - 9) % 2 == 0) ==> ga[j].1 == "54994"@)) by {
        if j == 0 {
            assert(ga[0].0 == "DEV.DataPathType"@);
            assert(ga[0].0.len() != 15);
            assert(!is_lobby_host_key(ga[0].0));
            assert(!is_lobby_port_key(ga[0].0));
        } else if j == 1 {
            assert(ga[1].0 == "DEV.UseSqPack"@);
            assert(ga[1].0.len() != 15);
            assert(!is_lobby_host_key(ga[1].0));
            assert(!is_lobby_port_key(ga[1].0));
        } else if j == 2 {
            assert(ga[2].0 == "DEV.MaxEntitledExpansionID"@);
            assert(ga[2].0.len() != 15);
            assert(!is_lobby_host_key(ga[2].0));
            assert(!is_lobby_port_key(ga[2].0));
        } else if j == 3 {
            assert(ga[3].0 == "DEV.TestSID"@);
            assert(ga[3].0.len() != 15);
            assert(!is_lobby_host_key(ga[3].0));
            assert(!is_lobby_port_key(ga[3].0));
        } else if j == 4 {
            assert(ga[4].0 == "SYS.Region"@);
            assert(ga[4].0.len() != 15);
            assert(!is_lobby_host_key(ga[4].0));
            assert(!is_lobby_port_key(ga[4].0));
        } else if j == 5 {
            assert(ga[5].0 == "language"@);
            assert(ga[5].0.len() != 15);
            assert(!is_lobby_host_key(ga[5].0));
            assert(!is_lobby_port_key(ga[5].0));
        } else if j == 6 {
            assert(ga[6].0 == "ver"@);
            assert(ga[6].0.len() != 15);
            assert(!is_lobby_host_key(ga[6].0));
            assert(!is_lobby_port_key(ga[6].0));
        } else if j == 7 {
            assert(ga[7].0 == "DEV.GMServerHost"@);
            assert(ga[7].0.len() != 15);
            assert(!is_lobby_host_key(ga[7].0));
            assert(!is_lobby_port_key(ga[7].0));
        } else if j == 8 {
            assert(ga[8].0 == "DEV.LobbyHost01"@);
            assert(is_lobby_host_key(ga[8].0));
            assert(!is_lobby_port_key(ga[8].0));
            assert(ga[8].1 == s.lobby_host);
        } else if j == 9 {
            assert(ga[9].0 == "DEV.LobbyPort01"@);
            assert(!is_lobby_host_key(ga[9].0));
            assert(is_lobby_port_key(ga[9].0));
            assert(ga[9].1 == "54994"@);
        } else if j == 10 {
            assert(ga[10].0 == "DEV.LobbyHost02"@);
            assert(is_lobby_host_key(ga[10].0));
            assert(!is_lobby_port_key(ga[10].0));
            assert(ga[10].1 == s.lobby_host);
        } else if j == 11 {
            assert(ga[11].0 == "DEV.LobbyPort02"@);
            assert(!is_lobby_host_key(ga[11].0));
            assert(is_lobby_port_key(ga[11].0));
            assert(ga[11].1 == "54994"@);
        } else if j == 12 {
            assert(ga[12].0 == "DEV.LobbyHost03"@);
            assert(is_lobby_host_key(ga[12].0));
            assert(!is_lobby_port_key(ga[12].0));
            assert(ga[12].1 == s.lobby_host);
        } else if j == 13 {
            assert(ga[13].0 == "DEV.LobbyPort03"@);
            assert(!is_lobby_host_key(ga[13].0));
            assert(is_lobby_port_key(ga[13].0));
            assert(ga[13].1 == "54994"@);
        } else if j == 14 {
            assert(ga[14].0 == "DEV.LobbyHost04"@);
            assert(is_lobby_host_key(ga[14].0));
            assert(!is_lobby_port_key(ga[14].0));
            assert(ga[14].1 == s.lobby_host);
        } else if j == 15 {
            assert(ga[15].0 == "DEV.LobbyPort04"@);
            assert(!is_lobby_host_key(ga[15].0));
            assert(is_lobby_port_key(ga[15].0));
            assert(ga[15].1 == "54994"@);
        } else if j == 16 {
            assert(ga[16].0 == "DEV.LobbyHost05"@);
            assert(is_lobby_host_key(ga[16].0));
            assert(!is_lobby_port_key(ga[16].0));
            assert(ga[16].1 == s.lobby_host);
        } else if j == 17 {
            assert(ga[17].0 == "DEV.LobbyPort05"@);
            assert(!is_lobby_host_key(ga[17].0));
            assert(is_lobby_port_key(ga[17].0));
            assert(ga[17].1 == "54994"@);
        } else if j == 18 {
            assert(ga[18].0 == "DEV.LobbyHost06"@);
            assert(is_lobby_host_key(ga[18].0));
            assert(!is_lobby_port_key(ga[18].0));
            assert(ga[18].1 == s.lobby_host);
        } else if j == 19 {
            assert(ga[19].0 == "DEV.LobbyPort06"@);
            assert(!is_lobby_host_key(ga[19].0));
            assert(is_lobby_port_key(ga[19].0));
            assert(ga[19].1 == "54994"@);
        } else if j == 20 {
            assert(ga[20].0 == "DEV.LobbyHost07"@);
            assert(is_lobby_host_key(ga[20].0));
            assert(!is_lobby_port_key(ga[20].0));
            assert(ga[20].1 == s.lobby_host);
        } else if j == 21 {
            assert(ga[21].0 == "DEV.LobbyPort07"@);
            assert(!is_lobby_host_key(ga[21].0));
            assert(is_lobby_port_key(ga[21].0));
            assert(ga[21].1 == "54994"@);
        } else if j == 22 {
            assert(ga[22].0 == "DEV.LobbyHost08"@);
            assert(is_lobby_host_key(ga[22].0));
            assert(!is_lobby_port_key(ga[22].0));
            assert(ga[22].1 == s.lobby_host);
        } else {
            assert(ga[23].0 == "DEV.LobbyPort08"@);
            assert(!is_lobby_host_key(ga[23].0));
            assert(is_lobby_port_key(ga[23].0));
            assert(ga[23].1 == "54994"@);
        }
    }
}

/// Law: building the argument string is deterministic — one session and one
/// version yield exactly one argument string, before the intentionally
/// time-varying encoding step.
pub proof fn lemma_builder_deterministic(
    s: SessionView,
    version: Seq<char>,
    r1: Seq<char>,
    r2: Seq<char>,
)
    requires
        r1 == game_args_plaintext(s, version),
        r2 == game_args_plaintext(s, version),
    ensures
        r1 == r2,
{
}

/// Relies on physis's `read_version`: reads a version file's text
/// from disk. The outcome depends on the filesystem, so nothing is promised
/// of it.
#[verifier::external_body]
fn read_version_file(path: &str) -> (r: Option<String>) {
    physis::read_version(std::path::Path::new(path))
}

/// The version file of the base data repository under a game directory.
pub open spec fn spec_version_file_path(game_dir: Seq<char>) -> Seq<char> {
    game_dir + "/game/sqpack/ffxiv/ffxivgame.ver"@
}

/// The location of the base repository's version file.
pub fn version_file_path(game_dir: &str) -> (r: String)
    ensures
        r@ == spec_version_file_path(game_dir@),
{
    let mut out = game_dir.to_owned();
    out.append("/game/sqpack/ffxiv/ffxivgame.ver");
    out
}

/// What a version-file reading yields for the launch: the version text when
/// the filesystem produced one, the repository error when it did not.
pub fn version_from_read(read: Option<String>) -> (r: Result<String, RepositoryReadError>)
    ensures
        r == (match read {
            Some(v) => Ok::<String, RepositoryReadError>(v),
            None => Err::<String, RepositoryReadError>(RepositoryReadError),
        }),
{
    match read {
        Some(v) => Ok(v),
        None => Err(RepositoryReadError),
    }
}

/// Reads the client version string out of the game installation's base data
/// repository; the filesystem decides which way `version_from_read` goes.
pub fn read_repository_version(game_dir: &str) -> (r: Result<String, RepositoryReadError>)
    ensures
        r matches Err(e) ==> e == RepositoryReadError,
{
    let path = version_file_path(game_dir);
    version_from_read(read_version_file(path.as_str()))
}

/// Runs the whole argument step for one launch attempt: reads the
/// installation's version, assembles and serializes the argument list, and
/// encodes it into the wire token for the given tick count. Whatever version
/// string the installation yields, a success is the exact token for that
/// version's argument string, in the fixed wire shape.
pub fn get_game_args(session: &SessionDescriptor, settings: &CoreSettings, ticks: u32) -> (r:
    Result<String, ErrorKind>)
    ensures
        r matches Ok(tok) ==> token_shape(tok@) && (exists|v: Seq<char>|
            tok@ == token_of(ticks, game_args_plaintext(session@, v))),
        r matches Err(k) ==> (k matches ErrorKind::Repository(_) || k matches ErrorKind::Encryption(
            _,
        )),
{
    let version = match read_repository_version(settings.game_dir.as_str()) {
        Ok(v) => v,
        Err(e) => {
            return Err(ErrorKind::Repository(e));
        },
    };
    let args = build_game_args(session, version.as_str());
    match encode_game_arg(ticks, args.as_str()) {
        Ok(tok) => {
            proof {
                let v = version@;
                assert(tok@ == token_of(ticks, game_args_plaintext(session@, v)));
            }
            Ok(tok)
        },
        Err(e) => Err(ErrorKind::Encryption(e)),
    }
}

} // verus!
