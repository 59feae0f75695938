//! The commands that create and list ping monitors.

use vstd::prelude::*;
use vstd::string::*;

use crate::cli::PingCreateOptions;
use crate::db::ping::{
    law_state_names, stored, MonitorSpec, MonitorState, PingMonitor, Stats, StatsSpec,
};
use crate::db::util::WithId;
use crate::text::{i64_to_string, signed_decimal};
use crate::time::{
    format_duration, humantime_text, utc_text, view_opt, whole_seconds, Duration, Timestamp,
    NANOS_PER_SEC,
};

verus! {

/// Whether a character is a digit of a hexadecimal number in lower case.
pub open spec fn is_hex(c: char) -> bool {
    '0' <= c <= '9' || 'a' <= c <= 'f'
}

/// Whether a text is a random UUID in lower case, in groups of 8, 4, 4, 4 and 12 digits.
pub open spec fn is_token(s: Seq<char>) -> bool {
    &&& s.len() == 36
    &&& forall|i: int|
        0 <= i < 36 ==> if i == 8 || i == 13 || i == 18 || i == 23 {
            #[trigger] s[i] == '-'
        } else {
            is_hex(s[i])
        }
    &&& s[14] == '4'
    &&& s[19] == '8' || s[19] == '9' || s[19] == 'a' || s[19] == 'b'
}

/// Makes up a token with uuid's `Uuid::new_v4`, printed by its `Display`.
///
/// Not proved: the text has the form of a random UUID. Which one it is depends on chance.
#[verifier::external_body]
fn fresh_token() -> (res: String)
    ensures
        is_token(res@),
{
    uuid::Uuid::new_v4().to_string()
}

/// The monitor that the options describe. Without a grace period it gets a tenth of the period.
pub open spec fn described(options: PingCreateOptions, token: Seq<char>, now: int) -> MonitorSpec {
    MonitorSpec {
        token,
        name: options.name@,
        period: options.period@,
        grace: match options.grace {
            Some(grace) => grace@,
            None => options.period@ / 10,
        },
        created_at: now,
    }
}

/// The monitor that the options describe, with the given token.
pub fn create_with_token(options: &PingCreateOptions, token: String, now: Timestamp) -> (res:
    PingMonitor)
    ensures
        res@ == described(*options, token@, now@),
{
    let grace: Duration = match options.grace {
        Some(grace) => grace,
        None => options.period.tenth(),
    };
    PingMonitor {
        token,
        name: options.name.clone(),
        period: options.period,
        grace,
        created_at: now,
    }
}

/// The monitor that the options describe, with a token that nobody can guess.
pub fn create(options: &PingCreateOptions, now: Timestamp) -> (res: PingMonitor)
    ensures
        is_token(res.token@),
        res@ == described(*options, res.token@, now@),
{
    create_with_token(options, fresh_token(), now)
}

/// What the user is told about a new monitor, line by line.
pub open spec fn report(pm: MonitorSpec) -> Seq<Seq<char>> {
    seq![
        "Added ping monitor:"@,
        "    token : "@ + pm.token,
        "    name  : "@ + pm.name,
        "    period: "@ + humantime_text(pm.period),
        "    grace : "@ + humantime_text(pm.grace),
    ]
}

/// The views of a list of texts.
pub open spec fn view_lines(lines: Seq<String>) -> Seq<Seq<char>> {
    lines.map_values(|line: String| line@)
}

/// A label and what it is put in front of.
fn labelled(label: &str, value: &str) -> (res: String)
    ensures
        res@ == label@ + value@,
{
    let mut res: String = label.to_string();
    res.append(value);
    res
}

/// What the user is told about a new monitor, line by line.
pub fn created_lines(pm: &PingMonitor) -> (res: Vec<String>)
    ensures
        view_lines(res@) == report(pm@),
{
    let mut res: Vec<String> = Vec::new();
    res.push("Added ping monitor:".to_string());
    res.push(labelled("    token : ", pm.token.as_str()));
    res.push(labelled("    name  : ", pm.name.as_str()));
    res.push(labelled("    period: ", format_duration(pm.period).as_str()));
    res.push(labelled("    grace : ", format_duration(pm.grace).as_str()));
    assert(view_lines(res@) =~= report(pm@));
    res
}

/// How the content of a cell is aligned.
#[derive(Debug, Clone, Copy, PartialEq, Eq, Structural)]
pub enum Align {
    /// As the table has it.
    Plain,
    /// To the right.
    Right,
}

/// A cell of a table.
#[derive(Debug)]
pub struct TableCell {
    pub text: String,
    pub align: Align,
}

impl View for TableCell {
    type V = (Seq<char>, Align);

    open spec fn view(&self) -> (Seq<char>, Align) {
        (self.text@, self.align)
    }
}

/// The view of a row.
pub open spec fn view_row(row: Seq<TableCell>) -> Seq<(Seq<char>, Align)> {
    row.map_values(|cell: TableCell| cell@)
}

/// The views of all rows.
pub open spec fn view_rows(rows: Seq<Vec<TableCell>>) -> Seq<Seq<(Seq<char>, Align)>> {
    rows.map_values(|row: Vec<TableCell>| view_row(row@))
}

/// The look of a table.
#[derive(Debug, Clone, Copy, PartialEq, Eq, Structural)]
pub enum Preset {
    /// Without any borders or lines.
    Nothing,
}

/// What comfy_table's `Table` prints under the given preset for the given header and rows.
pub uninterp spec fn table_text(
    preset: Preset,
    header: Seq<Seq<char>>,
    rows: Seq<Seq<(Seq<char>, Align)>>,
) -> Seq<char>;

/// Prints a table with the `Display` of comfy_table's `Table`.
///
/// Not proved: the text depends on the preset, the header and the cells alone. The width of the
/// terminal has no influence, since the content is not arranged dynamically.
#[verifier::external_body]
fn render_table(preset: Preset, header: &Vec<String>, rows: &Vec<Vec<TableCell>>) -> (res: String)
    ensures
        res@ == table_text(preset, view_lines(header@), view_rows(rows@)),
{
    let mut table = comfy_table::Table::new();
    table.load_preset(match preset {
        Preset::Nothing => comfy_table::presets::NOTHING,
    });
    table.set_header(header);
    table.add_rows(rows.iter().map(|row| row.iter().map(|cell| match cell.align {
        Align::Plain => comfy_table::Cell::new(&cell.text),
        Align::Right => comfy_table::Cell::new(&cell.text)
            .set_alignment(comfy_table::CellAlignment::Right),
    })));
    table.to_string()
}

/// How long ago the last ping was.
pub open spec fn last_ping_delta(now: int, last_ping_at: int) -> Seq<char> {
    if now < last_ping_at {
        "error: in the future"@
    } else {
        humantime_text(whole_seconds(now - last_ping_at)) + " ago"@
    }
}

/// How long ago the last ping was, in whole seconds.
pub fn format_last_ping_delta(now: Timestamp, last_ping_at: Timestamp) -> (res: String)
    ensures
        res@ == last_ping_delta(now@, last_ping_at@),
{
    match now.since(last_ping_at) {
        Some(d) => {
            let mut res: String = format_duration(d.truncated());
            res.append(" ago");
            res
        },
        None => "error: in the future".to_string(),
    }
}

/// When the last ping was, if there was one.
pub open spec fn last_ping_text(now: int, last_ping_at: Option<int>) -> Seq<char> {
    match last_ping_at {
        Some(t) => utc_text(t) + " ("@ + last_ping_delta(now, t) + ")"@,
        None => ""@,
    }
}

/// The titles of the columns.
pub open spec fn titles() -> Seq<Seq<char>> {
    seq![
        "ID"@,
        "TOKEN"@,
        "NAME"@,
        "PERIOD"@,
        "GRACE"@,
        "CREATED"@,
        "PINGS"@,
        "LAST_PING"@,
        "STATE"@,
        "STATE_SINCE"@,
    ]
}

/// The row for a monitor.
pub open spec fn monitor_row(id: int, pm: MonitorSpec, stats: StatsSpec, now: int) -> Seq<
    (Seq<char>, Align),
> {
    seq![
        (signed_decimal(id), Align::Right),
        (pm.token, Align::Plain),
        (pm.name, Align::Plain),
        (humantime_text(pm.period), Align::Right),
        (humantime_text(pm.grace), Align::Right),
        (utc_text(pm.created_at), Align::Plain),
        (signed_decimal(stats.num_pings), Align::Right),
        (last_ping_text(now, stats.last_ping_at), Align::Plain),
        (stats.state.text(), Align::Plain),
        (utc_text(stats.state_since), Align::Plain),
    ]
}

/// The rows for a list of monitors.
pub open spec fn monitor_rows(pings: Seq<(WithId<PingMonitor>, Stats)>, now: int) -> Seq<
    Seq<(Seq<char>, Align)>,
> {
    pings.map_values(
        |p: (WithId<PingMonitor>, Stats)| monitor_row(p.0.id as int, p.0.inner@, p.1@, now),
    )
}

/// The titles of the columns.
pub fn list_header() -> (res: Vec<String>)
    ensures
        view_lines(res@) == titles(),
{
    let mut res: Vec<String> = Vec::new();
    res.push("ID".to_string());
    res.push("TOKEN".to_string());
    res.push("NAME".to_string());
    res.push("PERIOD".to_string());
    res.push("GRACE".to_string());
    res.push("CREATED".to_string());
    res.push("PINGS".to_string());
    res.push("LAST_PING".to_string());
    res.push("STATE".to_string());
    res.push("STATE_SINCE".to_string());
    assert(view_lines(res@) =~= titles());
    res
}

/// When the last ping was, if there was one.
fn format_last_ping(now: Timestamp, last_ping_at: Option<Timestamp>) -> (res: String)
    ensures
        res@ == last_ping_text(now@, view_opt(last_ping_at)),
{
    match last_ping_at {
        Some(last_ping_at) => {
            let mut res: String = last_ping_at.format();
            res.append(" (");
            res.append(format_last_ping_delta(now, last_ping_at).as_str());
            res.append(")");
            res
        },
        None => "".to_string(),
    }
}

/// A cell whose content is aligned as the table has it.
fn plain(text: String) -> (res: TableCell)
    ensures
        res@ == (text@, Align::Plain),
{
    TableCell { text, align: Align::Plain }
}

/// A cell whose content is aligned to the right.
fn right(text: String) -> (res: TableCell)
    ensures
        res@ == (text@, Align::Right),
{
    TableCell { text, align: Align::Right }
}

/// The row for a monitor.
pub fn list_row(pm: &WithId<PingMonitor>, stats: &Stats, now: Timestamp) -> (res: Vec<TableCell>)
    ensures
        view_row(res@) == monitor_row(pm.id as int, pm.inner@, stats@, now@),
{
    let mut res: Vec<TableCell> = Vec::new();
    res.push(right(i64_to_string(pm.id as i64)));
    res.push(plain(pm.inner.token.clone()));
    res.push(plain(pm.inner.name.clone()));
    res.push(right(format_duration(pm.inner.period)));
    res.push(right(format_duration(pm.inner.grace)));
    res.push(plain(pm.inner.created_at.format()));
    res.push(right(i64_to_string(stats.num_pings)));
    res.push(plain(format_last_ping(now, stats.last_ping_at)));
    res.push(plain(stats.state.to_string()));
    res.push(plain(stats.state_since.format()));
    assert(view_row(res@) =~= monitor_row(pm.id as int, pm.inner@, stats@, now@));
    res
}

/// The rows for a list of monitors.
pub fn list_rows(pings: &Vec<(WithId<PingMonitor>, Stats)>, now: Timestamp) -> (res: Vec<
    Vec<TableCell>,
>)
    ensures
        view_rows(res@) == monitor_rows(pings@, now@),
{
    let mut res: Vec<Vec<TableCell>> = Vec::new();
    let mut idx: usize = 0;
    while idx < pings.len()
        invariant
            idx <= pings.len(),
            res.len() == idx,
            forall|i: int|
                0 <= i < idx ==> view_row((#[trigger] res@[i])@) == monitor_row(
                    pings@[i].0.id as int,
                    pings@[i].0.inner@,
                    pings@[i].1@,
                    now@,
                ),
        decreases pings.len() - idx,
    {
        let row: Vec<TableCell> = list_row(&pings[idx].0, &pings[idx].1, now);
        res.push(row);
        idx = idx + 1;
    }
    assert(view_rows(res@) =~= monitor_rows(pings@, now@));
    res
}

/// The list of monitors as a table.
pub fn list(pings: &Vec<(WithId<PingMonitor>, Stats)>, now: Timestamp) -> (res: String)
    ensures
        res@ == table_text(Preset::Nothing, titles(), monitor_rows(pings@, now@)),
{
    render_table(Preset::Nothing, &list_header(), &list_rows(pings, now))
}

/// A monitor that was created without a grace period has a tenth of its period, rounded down. If
/// the period is ten seconds or more, some of it is left when it is stored in whole seconds.
pub proof fn law_default_grace_is_a_tenth(options: PingCreateOptions, token: Seq<char>, now: int)
    requires
        options.grace is None,
        options.period@ >= 0,
    ensures
        0 <= described(options, token, now).grace <= described(options, token, now).period,
        described(options, token, now).grace * 10 <= described(options, token, now).period
            < described(options, token, now).grace * 10 + 10,
        options.period@ >= 10 * NANOS_PER_SEC ==> stored(
            described(options, token, now),
        ).grace > 0,
{
}

/// Every monitor has a row with a cell for every title.
pub proof fn law_rows_match_titles(
    pings: Seq<(WithId<PingMonitor>, Stats)>,
    now: int,
    i: int,
)
    requires
        0 <= i < pings.len(),
    ensures
        monitor_rows(pings, now).len() == pings.len(),
        monitor_rows(pings, now)[i].len() == titles().len(),
{
}

/// A monitor is created as the options say: a grace period that is specified is kept as it is,
/// whatever the period is, and so are the name and the period.
pub proof fn law_options_are_kept(options: PingCreateOptions, token: Seq<char>, now: int)
    ensures
        options.grace matches Some(grace) ==> described(options, token, now).grace == grace@,
        described(options, token, now).period == options.period@,
        described(options, token, now).name == options.name@,
        described(options, token, now).token == token,
        described(options, token, now).created_at == now,
{
}

/// The cell under the title `STATE` is the name of the recorded state, whatever else is recorded:
/// rows of monitors in different states differ there.
pub proof fn law_list_shows_the_state(
    id: int,
    pm: MonitorSpec,
    stats: StatsSpec,
    other_id: int,
    other: MonitorSpec,
    other_stats: StatsSpec,
    now: int,
)
    ensures
        titles()[8] == "STATE"@,
        stats.state == MonitorState::Okay <==> monitor_row(id, pm, stats, now)[8].0 == "Ok"@,
        stats.state == MonitorState::Failed <==> monitor_row(id, pm, stats, now)[8].0 == "Failed"@,
        monitor_row(id, pm, stats, now)[8] == monitor_row(other_id, other, other_stats, now)[8]
            <==> stats.state == other_stats.state,
{
    law_state_names(stats.state);
    law_state_names(other_stats.state);
}

/// Every cell stands under the title of its field, and the row has no others. Numbers and spans
/// are aligned to the right, anything else as the table has it.
pub proof fn law_cells_stand_under_their_titles(
    id: int,
    pm: MonitorSpec,
    stats: StatsSpec,
    now: int,
)
    ensures
        ({
            let row = monitor_row(id, pm, stats, now);
            let t = titles();
            &&& row.len() == 10 && t.len() == 10
            &&& t[0] == "ID"@ && row[0] == (signed_decimal(id), Align::Right)
            &&& t[1] == "TOKEN"@ && row[1] == (pm.token, Align::Plain)
            &&& t[2] == "NAME"@ && row[2] == (pm.name, Align::Plain)
            &&& t[3] == "PERIOD"@ && row[3] == (humantime_text(pm.period), Align::Right)
            &&& t[4] == "GRACE"@ && row[4] == (humantime_text(pm.grace), Align::Right)
            &&& t[5] == "CREATED"@ && row[5] == (utc_text(pm.created_at), Align::Plain)
            &&& t[6] == "PINGS"@ && row[6] == (signed_decimal(stats.num_pings), Align::Right)
            &&& t[7] == "LAST_PING"@ && row[7].1 == Align::Plain
            &&& t[8] == "STATE"@ && row[8].1 == Align::Plain
            &&& t[9] == "STATE_SINCE"@ && row[9] == (utc_text(stats.state_since), Align::Plain)
        }),
{
}

/// The cell of the last ping is empty if and only if there was none. Otherwise it tells the time
/// of the ping, and how many whole seconds ago that was, unless it lies in the future.
pub proof fn law_list_shows_the_last_ping(id: int, pm: MonitorSpec, stats: StatsSpec, now: int)
    ensures
        ({
            let cell = monitor_row(id, pm, stats, now)[7].0;
            &&& cell == Seq::<char>::empty() <==> stats.last_ping_at is None
            &&& stats.last_ping_at matches Some(t) ==> (t > now ==> cell == utc_text(t)
                + " ("@ + "error: in the future"@ + ")"@)
            &&& stats.last_ping_at matches Some(t) ==> (t <= now ==> cell == utc_text(t) + " ("@ + (
            humantime_text((now - t) / 1_000_000_000 * 1_000_000_000) + " ago"@) + ")"@)
        }),
{
    reveal_strlit("");
    reveal_strlit(")");
    assert(""@ =~= Seq::<char>::empty());
    if let Some(t) = stats.last_ping_at {
        let cell = monitor_row(id, pm, stats, now)[7].0;
        assert(cell.len() >= 1);
    }
}

/// Rows come in the order of the monitors, one for each.
pub proof fn law_rows_in_order(pings: Seq<(WithId<PingMonitor>, Stats)>, now: int, i: int)
    requires
        0 <= i < pings.len(),
    ensures
        monitor_rows(pings, now).len() == pings.len(),
        monitor_rows(pings, now)[i] == monitor_row(
            pings[i].0.id as int,
            pings[i].0.inner@,
            pings[i].1@,
            now,
        ),
{
}

/// The user is told the token, the name and both spans of a new monitor, each in its line.
pub proof fn law_report_tells_the_monitor(pm: MonitorSpec)
    ensures
        report(pm).len() == 5,
        report(pm)[0] == "Added ping monitor:"@,
        report(pm)[1] == "    token : "@ + pm.token,
        report(pm)[2] == "    name  : "@ + pm.name,
        report(pm)[3] == "    period: "@ + humantime_text(pm.period),
        report(pm)[4] == "    grace : "@ + humantime_text(pm.grace),
{
}

/// A token has the form of a random UUID.
pub proof fn law_form_of_a_token(s: Seq<char>, i: int)
    requires
        is_token(s),
        0 <= i < 36,
    ensures
        s.len() == 36,
        s[i] == '-' <==> i == 8 || i == 13 || i == 18 || i == 23,
        s[i] != '-' ==> '0' <= s[i] <= '9' || 'a' <= s[i] <= 'f',
        s[14] == '4',
{
}

/// What is shown of lines and of a table are their texts, and the alignment of each cell.
pub proof fn law_views_show_the_table(
    lines: Seq<String>,
    rows: Seq<Vec<TableCell>>,
    i: int,
    j: int,
)
    ensures
        view_lines(lines).len() == lines.len(),
        0 <= i < lines.len() ==> view_lines(lines)[i] == lines[i]@,
        view_rows(rows).len() == rows.len(),
        0 <= i < rows.len() ==> view_rows(rows)[i].len() == rows[i].len(),
        0 <= i < rows.len() && 0 <= j < rows[i].len() ==> view_rows(rows)[i][j] == (
            rows[i][j].text@,
            rows[i][j].align,
        ),
{
}

} // verus!
