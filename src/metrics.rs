//! The snapshot in metrics exposition format.

use vstd::prelude::*;

use crate::status::{text_of, ServerInfo};
use crate::text::{
    count_char, decimal, lemma_count_concat, lemma_count_line_break, lemma_decimal_single_line, lemma_single_line_count,
    push_decimal, single_line,
};

verus! {

/// `1` for true, `0` for false.
pub open spec fn flag(b: bool) -> Seq<char> {
    if b {
        "1"@
    } else {
        "0"@
    }
}

/// The label set shared by every metric of `s`, values taken verbatim.
pub open spec fn labels_of(s: ServerInfo) -> Seq<char> {
    "{name=\""@ + s.name@
        + "\",game_version=\""@ + s.game_version@
        + "\",network_version=\""@ + s.network_version@
        + "\",map=\""@ + s.map@ + "\"}"@
}

/// One metric line, without its line break.
pub open spec fn metric_line(metric: Seq<char>, labels: Seq<char>, value: Seq<char>) -> Seq<char> {
    metric + labels + " "@ + value
}

/// The four metrics of `s`, each line ended by a line break.
pub open spec fn metrics_of(s: ServerInfo) -> Seq<char> {
    metric_line("valheim_online"@, labels_of(s), flag(s.online)) + "\n"@
        + metric_line("valheim_current_player_count"@, labels_of(s), decimal(s.players as nat)) + "\n"@
        + metric_line("valheim_max_player_count"@, labels_of(s), decimal(s.max_players as nat)) + "\n"@
        + metric_line("valheim_bepinex_installed"@, labels_of(s), flag(s.bepinex.enabled)) + "\n"@
}

/// The label set of a snapshot whose text fields are single lines is a single line.
proof fn lemma_labels_single_line(s: ServerInfo)
    requires
        single_line(s.name@),
        single_line(s.game_version@),
        single_line(s.network_version@),
        single_line(s.map@),
    ensures
        single_line(labels_of(s)),
{
    reveal_strlit("{name=\"");
    reveal_strlit("\",game_version=\"");
    reveal_strlit("\",network_version=\"");
    reveal_strlit("\",map=\"");
    reveal_strlit("\"}");
}

/// Whatever the field values, empty ones included, as long as no text field
/// holds a line break, the metrics text has exactly four lines, and ends with
/// the line break of the last one.
pub proof fn lemma_metrics_four_lines(s: ServerInfo)
    requires
        single_line(s.name@),
        single_line(s.game_version@),
        single_line(s.network_version@),
        single_line(s.map@),
    ensures
        count_char(metrics_of(s), '\n') == 4,
        metrics_of(s).last() == '\n',
{
    broadcast use lemma_count_concat;

    lemma_labels_single_line(s);
    lemma_single_line_count(labels_of(s));
    lemma_decimal_single_line(s.players as nat);
    lemma_decimal_single_line(s.max_players as nat);
    reveal_strlit("valheim_online");
    reveal_strlit("valheim_current_player_count");
    reveal_strlit("valheim_max_player_count");
    reveal_strlit("valheim_bepinex_installed");
    reveal_strlit(" ");
    reveal_strlit("1");
    reveal_strlit("0");
    reveal_strlit("\n");
    lemma_single_line_count("valheim_online"@);
    lemma_single_line_count("valheim_current_player_count"@);
    lemma_single_line_count("valheim_max_player_count"@);
    lemma_single_line_count("valheim_bepinex_installed"@);
    lemma_single_line_count(" "@);
    lemma_single_line_count(flag(s.online));
    lemma_single_line_count(flag(s.bepinex.enabled));
    lemma_count_line_break();
}

/// Rendering depends on the snapshot alone: rendering the same snapshot
/// twice gives the same metrics text and the same status text.
pub proof fn lemma_render_deterministic(a: ServerInfo, b: ServerInfo)
    requires
        a == b,
    ensures
        metrics_of(a) == metrics_of(b),
        text_of(a) == text_of(b),
{
}

fn push_labels(out: &mut String, info: &ServerInfo)
    ensures
        final(out)@ == old(out)@ + labels_of(*info),
{
    let ghost start = out@;
    out.append("{name=\"");
    out.append(info.name.as_str());
    out.append("\",game_version=\"");
    out.append(info.game_version.as_str());
    out.append("\",network_version=\"");
    out.append(info.network_version.as_str());
    out.append("\",map=\"");
    out.append(info.map.as_str());
    out.append("\"}");
    assert(out@ =~= start + labels_of(*info));
}

fn push_flag(out: &mut String, b: bool)
    ensures
        final(out)@ == old(out)@ + flag(b),
{
    if b {
        out.append("1");
    } else {
        out.append("0");
    }
}

/// Appends the metric name and the label set of `info`, then a space.
fn push_metric_head(out: &mut String, metric: &str, info: &ServerInfo)
    ensures
        final(out)@ == old(out)@ + metric@ + labels_of(*info) + " "@,
{
    out.append(metric);
    push_labels(out, info);
    out.append(" ");
}

/// The metrics text of `info`: online state, current and maximum player
/// counts, and whether the extension runtime is enabled.
pub fn invoke(info: &ServerInfo) -> (r: String)
    ensures
        r@ == metrics_of(*info),
{
    let mut r = String::new();
    push_metric_head(&mut r, "valheim_online", info);
    push_flag(&mut r, info.online);
    r.append("\n");
    let ghost first = r@;
    push_metric_head(&mut r, "valheim_current_player_count", info);
    push_decimal(&mut r, info.players);
    r.append("\n");
    let ghost second = r@;
    push_metric_head(&mut r, "valheim_max_player_count", info);
    push_decimal(&mut r, info.max_players);
    r.append("\n");
    let ghost third = r@;
    push_metric_head(&mut r, "valheim_bepinex_installed", info);
    push_flag(&mut r, info.bepinex.enabled);
    r.append("\n");
    let ghost labels = labels_of(*info);
    assert(first =~= metric_line("valheim_online"@, labels, flag(info.online)) + "\n"@);
    assert(second =~= first + metric_line("valheim_current_player_count"@, labels, decimal(info.players as nat)) + "\n"@);
    assert(third =~= second + metric_line("valheim_max_player_count"@, labels, decimal(info.max_players as nat)) + "\n"@);
    assert(r@ =~= third + metric_line("valheim_bepinex_installed"@, labels, flag(info.bepinex.enabled)) + "\n"@);
    assert(r@ =~= metrics_of(*info));
    r
}

} // verus!
