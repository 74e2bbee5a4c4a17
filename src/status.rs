//! The status snapshot: built from a query response, or the offline record
//! when the query failed.

use vstd::prelude::*;

use crate::extensions::{BepInExInfo, ModInfo};
use crate::jobs::{job_schedule, Config, JobInfo, AUTO_BACKUP_JOB, AUTO_UPDATE_JOB};
use crate::keywords::{
    contains, free_of, keyword_lookup, keyword_value, lemma_two_entries, quoted_entry,
};
use crate::text::{
    bool_text, count_char, decimal, ends_with, lemma_count_concat, lemma_count_line_break,
    lemma_decimal_single_line, lemma_single_line_count, push_bool, push_decimal, single_line,
};

verus! {

/// Key of the game version in the keyword string.
pub const GAME_VERSION_KEY: &'static str = "gameversion";

/// Key of the network version in the keyword string.
pub const NETWORK_VERSION_KEY: &'static str = "networkversion";

/// The fields of a query response that the snapshot reads.
#[derive(Debug, Clone)]
pub struct QueryInfo {
    pub name: String,
    pub players: u8,
    pub max_players: u8,
    pub map: String,
    /// The keyword string, where the response carries one.
    pub keywords: Option<String>,
}

/// Why a query gave no response.
#[derive(Debug, Clone, Copy, PartialEq, Eq, Structural)]
pub enum QueryFailure {
    /// The query client could not be set up.
    Client,
    /// The request timed out, was refused, or its reply was malformed.
    Request,
}

/// A point-in-time snapshot of the server.
#[derive(Debug, Clone)]
pub struct ServerInfo {
    pub name: String,
    pub game_version: String,
    pub network_version: String,
    pub players: u8,
    pub max_players: u8,
    pub map: String,
    pub online: bool,
    pub bepinex: BepInExInfo,
    pub jobs: Vec<JobInfo>,
}

/// The placeholder for a value that is not known.
pub open spec fn unknown() -> Seq<char> {
    "Unknown"@
}

/// The name configured for the server, or the placeholder.
pub open spec fn configured_name(config: Config) -> Seq<char> {
    match config.name {
        Some(n) => n@,
        None => unknown(),
    }
}

/// The version that `keywords` gives under `key`, or the placeholder.
pub open spec fn version_field(keywords: Option<String>, key: Seq<char>) -> Seq<char> {
    match keywords {
        Some(k) => match keyword_lookup(k@, key) {
            Some(v) => v,
            None => unknown(),
        },
        None => unknown(),
    }
}

/// `job` is the known job `id` as `config` describes it.
pub open spec fn is_job(job: JobInfo, id: Seq<char>, config: Config) -> bool {
    job.name@ == id && job_schedule(id, config) == Some(job.schedule@)
}

/// `s` is the offline record under `config`.
pub open spec fn is_offline(s: ServerInfo, config: Config) -> bool {
    &&& s.name@ == configured_name(config)
    &&& s.map@ == configured_name(config)
    &&& s.game_version@ == unknown()
    &&& s.network_version@ == unknown()
    &&& s.players == 0
    &&& s.max_players == 0
    &&& !s.online
    &&& !s.bepinex.enabled
    &&& s.bepinex.mods@.len() == 0
    &&& s.jobs@.len() == 0
}

/// `s` is the record that the response `info` gives, with the extension
/// state `bepinex` and the known jobs of `config`.
pub open spec fn is_parsed(s: ServerInfo, info: QueryInfo, bepinex: BepInExInfo, config: Config) -> bool {
    &&& s.name@ == info.name@
    &&& s.map@ == info.map@
    &&& s.players == info.players
    &&& s.max_players == info.max_players
    &&& s.game_version@ == version_field(info.keywords, GAME_VERSION_KEY@)
    &&& s.network_version@ == version_field(info.keywords, NETWORK_VERSION_KEY@)
    &&& s.online
    &&& s.bepinex == bepinex
    &&& s.jobs@.len() == 2
    &&& is_job(s.jobs@[0], AUTO_UPDATE_JOB@, config)
    &&& is_job(s.jobs@[1], AUTO_BACKUP_JOB@, config)
}

/// The names of `mods`, joined by `, `.
pub open spec fn join_names(mods: Seq<ModInfo>) -> Seq<char>
    decreases mods.len(),
{
    if mods.len() == 0 {
        Seq::empty()
    } else if mods.len() == 1 {
        mods[0].name@
    } else {
        join_names(mods.drop_last()) + ", "@ + mods.last().name@
    }
}

/// The line-oriented text of a snapshot: one `label: value` line per field,
/// and a line of extension names only where the runtime is enabled.
pub open spec fn text_of(s: ServerInfo) -> Seq<char> {
    "Name: "@ + s.name@ + "\n"@
        + "Game Version: "@ + s.game_version@ + "\n"@
        + "Network Version: "@ + s.network_version@ + "\n"@
        + "Players: "@ + decimal(s.players as nat) + "/"@ + decimal(s.max_players as nat) + "\n"@
        + "Map: "@ + s.map@ + "\n"@
        + "BepInEx Enabled: "@ + bool_text(s.bepinex.enabled)
        + if s.bepinex.enabled {
            "\n"@ + "BepInEx Mods: "@ + join_names(s.bepinex.mods@)
        } else {
            Seq::empty()
        }
}

/// A response whose keyword string is `gameversion="g",networkversion="n"`
/// is parsed to game version `g` and network version `n`, quotes trimmed,
/// where neither value holds a comma, `=` or double quote and the first
/// entry does not already contain the network version key.
pub proof fn lemma_parse_both_versions(
    s: ServerInfo,
    info: QueryInfo,
    bepinex: BepInExInfo,
    config: Config,
    g: Seq<char>,
    n: Seq<char>,
)
    requires
        is_parsed(s, info, bepinex, config),
        info.keywords is Some,
        info.keywords->0@ == quoted_entry(GAME_VERSION_KEY@, g) + seq![','] + quoted_entry(
            NETWORK_VERSION_KEY@,
            n,
        ),
        free_of(g, ','),
        free_of(n, ','),
        free_of(g, '='),
        free_of(n, '='),
        free_of(g, '"'),
        free_of(n, '"'),
        !contains(quoted_entry(GAME_VERSION_KEY@, g), NETWORK_VERSION_KEY@),
    ensures
        s.game_version@ == g,
        s.network_version@ == n,
{
    reveal_strlit("gameversion");
    reveal_strlit("networkversion");
    lemma_two_entries(GAME_VERSION_KEY@, g, NETWORK_VERSION_KEY@, n);
}

/// A version key that the keyword string lacks, or a missing keyword string,
/// leaves that version at the placeholder; name, map and player counts are
/// those of the response whatever the keyword string holds.
pub proof fn lemma_missing_versions_unknown(
    s: ServerInfo,
    info: QueryInfo,
    bepinex: BepInExInfo,
    config: Config,
)
    requires
        is_parsed(s, info, bepinex, config),
    ensures
        (info.keywords is None || keyword_lookup(info.keywords->0@, GAME_VERSION_KEY@) is None)
            ==> s.game_version@ == "Unknown"@,
        (info.keywords is None || keyword_lookup(info.keywords->0@, NETWORK_VERSION_KEY@) is None)
            ==> s.network_version@ == "Unknown"@,
        s.name@ == info.name@,
        s.map@ == info.map@,
        s.players == info.players,
        s.max_players == info.max_players,
        s.online,
{
}

/// A snapshot whose extension runtime is disabled renders, as long as no
/// text field holds a line break, as exactly six lines, the last of them
/// `BepInEx Enabled: false`: there is no line of extension names.
pub proof fn lemma_disabled_text_has_no_mods_line(s: ServerInfo)
    requires
        !s.bepinex.enabled,
        single_line(s.name@),
        single_line(s.game_version@),
        single_line(s.network_version@),
        single_line(s.map@),
    ensures
        count_char(text_of(s), '\n') == 5,
        ends_with(text_of(s), "BepInEx Enabled: false"@),
{
    broadcast use lemma_count_concat;

    reveal_strlit("Name: ");
    reveal_strlit("Game Version: ");
    reveal_strlit("Network Version: ");
    reveal_strlit("Players: ");
    reveal_strlit("/");
    reveal_strlit("Map: ");
    reveal_strlit("BepInEx Enabled: ");
    reveal_strlit("false");
    reveal_strlit("BepInEx Enabled: false");
    lemma_count_line_break();
    lemma_single_line_count(s.name@);
    lemma_single_line_count(s.game_version@);
    lemma_single_line_count(s.network_version@);
    lemma_single_line_count(s.map@);
    lemma_decimal_single_line(s.players as nat);
    lemma_decimal_single_line(s.max_players as nat);
    lemma_single_line_count("Name: "@);
    lemma_single_line_count("Game Version: "@);
    lemma_single_line_count("Network Version: "@);
    lemma_single_line_count("Players: "@);
    lemma_single_line_count("/"@);
    lemma_single_line_count("Map: "@);
    lemma_single_line_count("BepInEx Enabled: "@);
    lemma_single_line_count("false"@);
    let t = text_of(s);
    let tail = "BepInEx Enabled: false"@;
    assert(tail =~= "BepInEx Enabled: "@ + "false"@);
    assert(t.subrange(t.len() - tail.len(), t.len() as int) =~= tail);
}

/// Appends the names of `mods`, joined by `, `, to `out`.
fn push_names(out: &mut String, mods: &Vec<ModInfo>)
    ensures
        final(out)@ == old(out)@ + join_names(mods@),
{
    let ghost start = out@;
    let mut i: usize = 0;
    assert(join_names(mods@.subrange(0, 0)) =~= Seq::<char>::empty());
    assert(out@ =~= start + join_names(mods@.subrange(0, 0)));
    while i < mods.len()
        invariant
            0 <= i <= mods.len(),
            out@ == start + join_names(mods@.subrange(0, i as int)),
        decreases mods.len() - i,
    {
        let ghost prev = out@;
        assert(mods@.subrange(0, i + 1).drop_last() =~= mods@.subrange(0, i as int));
        if i > 0 {
            out.append(", ");
        }
        out.append(mods[i].name.as_str());
        if i == 0 {
            assert(out@ =~= start + join_names(mods@.subrange(0, 1)));
        } else {
            assert(out@ =~= start + join_names(mods@.subrange(0, i + 1)));
        }
        i += 1;
    }
    assert(mods@.subrange(0, mods@.len() as int) =~= mods@);
}

/// The version that `keywords` gives under `key`, or the placeholder.
fn version_from(keywords: &Option<String>, key: &str) -> (r: String)
    ensures
        r@ == version_field(*keywords, key@),
{
    match keywords {
        Some(k) => match keyword_value(k.as_str(), key) {
            Some(v) => v,
            None => "Unknown".to_owned(),
        },
        None => "Unknown".to_owned(),
    }
}

impl ServerInfo {
    /// An offline record reports no players, no jobs and no extensions.
    pub open spec fn wf(&self) -> bool {
        &&& self.bepinex.wf()
        &&& !self.online ==> self.players == 0 && self.max_players == 0 && self.jobs@.len() == 0
    }

    /// Builds the snapshot from the outcome of one query: the parsed
    /// response, or the offline record when the query failed.
    pub fn new(query: Result<QueryInfo, QueryFailure>, bepinex: BepInExInfo, config: &Config) -> (r: ServerInfo)
        requires
            bepinex.wf(),
        ensures
            r.wf(),
            match query {
                Ok(info) => is_parsed(r, info, bepinex, *config),
                Err(_) => is_offline(r, *config),
            },
    {
        match query {
            Ok(info) => ServerInfo::from_query(info, bepinex, config),
            Err(_) => ServerInfo::offline(config),
        }
    }

    /// The snapshot as `label: value` lines.
    pub fn render_text(&self) -> (r: String)
        ensures
            r@ == text_of(*self),
    {
        let mut r = String::new();
        r.append("Name: ");
        r.append(self.name.as_str());
        r.append("\n");
        r.append("Game Version: ");
        r.append(self.game_version.as_str());
        r.append("\n");
        r.append("Network Version: ");
        r.append(self.network_version.as_str());
        r.append("\n");
        r.append("Players: ");
        push_decimal(&mut r, self.players);
        r.append("/");
        push_decimal(&mut r, self.max_players);
        r.append("\n");
        r.append("Map: ");
        r.append(self.map.as_str());
        r.append("\n");
        r.append("BepInEx Enabled: ");
        push_bool(&mut r, self.bepinex.enabled);
        if self.bepinex.enabled {
            r.append("\n");
            r.append("BepInEx Mods: ");
            push_names(&mut r, &self.bepinex.mods);
        }
        assert(r@ =~= text_of(*self));
        r
    }

    /// The record of a server that did not answer: name and map from the
    /// configured name, versions unknown, all counts zero.
    pub fn offline(config: &Config) -> (r: ServerInfo)
        ensures
            r.wf(),
            is_offline(r, *config),
    {
        let name = match &config.name {
            Some(n) => n.clone(),
            None => "Unknown".to_owned(),
        };
        let map = match &config.name {
            Some(n) => n.clone(),
            None => "Unknown".to_owned(),
        };
        ServerInfo {
            name,
            game_version: "Unknown".to_owned(),
            network_version: "Unknown".to_owned(),
            players: 0,
            max_players: 0,
            map,
            online: false,
            bepinex: BepInExInfo::disabled(),
            jobs: Vec::new(),
        }
    }

    /// The record of a server that answered with `info`. The versions come
    /// from its keyword string; a missing key, or a missing keyword string,
    /// gives the placeholder.
    pub fn from_query(info: QueryInfo, bepinex: BepInExInfo, config: &Config) -> (r: ServerInfo)
        requires
            bepinex.wf(),
        ensures
            r.wf(),
            is_parsed(r, info, bepinex, *config),
    {
        let game_version = version_from(&info.keywords, GAME_VERSION_KEY);
        let network_version = version_from(&info.keywords, NETWORK_VERSION_KEY);
        proof {
            reveal_strlit("AUTO_UPDATE");
            reveal_strlit("AUTO_BACKUP");
        }
        let update = JobInfo::from_identifier(AUTO_UPDATE_JOB, config).unwrap();
        let backup = JobInfo::from_identifier(AUTO_BACKUP_JOB, config).unwrap();
        let mut jobs: Vec<JobInfo> = Vec::new();
        jobs.push(update);
        jobs.push(backup);
        ServerInfo {
            name: info.name,
            game_version,
            network_version,
            players: info.players,
            max_players: info.max_players,
            map: info.map,
            online: true,
            bepinex,
            jobs,
        }
    }
}

} // verus!
