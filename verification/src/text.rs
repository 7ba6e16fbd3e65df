use vstd::prelude::*;

use crate::daemon::{whole_seconds, time_ok};
use crate::protocol::DaemonResponse;

verus! {

/// The decimal digit `d` (for `d < 10`) as a character.
pub open spec fn digit_char(d: nat) -> char {
    seq!['0', '1', '2', '3', '4', '5', '6', '7', '8', '9'][d as int]
}

/// The usual decimal representation of `n`, most significant digit first,
/// without leading zeros (`0` is shown as `"0"`).
pub open spec fn decimal(n: nat) -> Seq<char>
    decreases n,
{
    if n < 10 {
        seq![digit_char(n)]
    } else {
        decimal(n / 10).push(digit_char(n % 10))
    }
}

/// The one-character string holding the digit `d`.
fn digit_str(d: u64) -> (s: &'static str)
    requires
        d < 10,
    ensures
        s@ == seq![digit_char(d as nat)],
{
    let digits = "0123456789";
    proof {
        reveal_strlit("0123456789");
    }
    let s = digits.substring_char(d as usize, (d + 1) as usize);
    assert(s@ =~= seq![digit_char(d as nat)]);
    s
}

/// Appends the decimal representation of `n` to `out`.
pub fn push_decimal(out: &mut String, n: u64)
    ensures
        final(out)@ == old(out)@ + decimal(n as nat),
    decreases n,
{
    if n >= 10 {
        push_decimal(out, n / 10);
        out.append(digit_str(n % 10));
        assert(out@ =~= old(out)@ + decimal(n as nat));
    } else {
        out.append(digit_str(n));
        assert(out@ =~= old(out)@ + decimal(n as nat));
    }
}

/// Hours, minutes and seconds of a duration given in seconds: whole hours,
/// the minutes left over, and the seconds left over.
pub open spec fn duration_parts(secs: nat) -> (nat, nat, nat) {
    (secs / 3600, (secs % 3600) / 60, secs % 60)
}

/// How a duration is shown: `"{h}h {m}m {s}s"` when it has whole hours,
/// `"{m}m {s}s"` when it has whole minutes but no hours, `"{s}s"` otherwise.
pub open spec fn duration_text(secs: nat) -> Seq<char> {
    let (h, m, s) = duration_parts(secs);
    if h > 0 {
        decimal(h) + seq!['h', ' '] + decimal(m) + seq!['m', ' '] + decimal(s) + seq!['s']
    } else if m > 0 {
        decimal(m) + seq!['m', ' '] + decimal(s) + seq!['s']
    } else {
        decimal(s) + seq!['s']
    }
}

/// Renders a number of seconds for people, as `duration_text` says.
pub fn format_duration(secs: u64) -> (text: String)
    ensures
        text@ == duration_text(secs as nat),
{
    let hours = secs / 3600;
    let mins = (secs % 3600) / 60;
    let rest = secs % 60;
    proof {
        reveal_strlit("h ");
        reveal_strlit("m ");
        reveal_strlit("s");
    }
    let mut text = String::new();
    if hours > 0 {
        push_decimal(&mut text, hours);
        text.append("h ");
        push_decimal(&mut text, mins);
        text.append("m ");
        push_decimal(&mut text, rest);
        text.append("s");
    } else if mins > 0 {
        push_decimal(&mut text, mins);
        text.append("m ");
        push_decimal(&mut text, rest);
        text.append("s");
    } else {
        push_decimal(&mut text, rest);
        text.append("s");
    }
    assert(text@ =~= duration_text(secs as nat));
    text
}

/// One application's line in a report: `"{app}: {duration}"`.
pub open spec fn entry_text(entry: (String, u64)) -> Seq<char> {
    entry.0@ + ": "@ + duration_text(entry.1 as nat)
}

/// The report lines of `entries`, one per line, separated by `'\n'`.
pub open spec fn joined_entries(entries: Seq<(String, u64)>) -> Seq<char>
    decreases entries.len(),
{
    if entries.len() == 0 {
        Seq::empty()
    } else if entries.len() == 1 {
        entry_text(entries[0])
    } else {
        joined_entries(entries.drop_last()) + seq!['\n'] + entry_text(entries.last())
    }
}

/// One application's line in a report, as `entry_text` says.
pub fn entry_line(app: &String, secs: u64) -> (line: String)
    ensures
        line@ == entry_text((*app, secs)),
{
    let mut line = app.clone();
    line.append(": ");
    line.append(format_duration(secs).as_str());
    line
}

/// The report as lines (the Waybar tooltip), as `joined_entries` says.
pub fn report_tooltip(entries: &Vec<(String, u64)>) -> (text: String)
    ensures
        text@ == joined_entries(entries@),
{
    let mut text = String::new();
    let mut i: usize = 0;
    while i < entries.len()
        invariant
            i <= entries.len(),
            text@ == joined_entries(entries@.take(i as int)),
        decreases entries.len() - i,
    {
        let ghost prefix = entries@.take(i + 1);
        assert(prefix.drop_last() =~= entries@.take(i as int));
        if i > 0 {
            text.append("\n");
        }
        let (app, secs) = &entries[i];
        let line = entry_line(app, *secs);
        text.append(line.as_str());
        proof {
            if i == 0 {
                assert(text@ =~= joined_entries(prefix));
            } else {
                reveal_strlit("\n");
                assert("\n"@ =~= seq!['\n']);
                assert(text@ =~= joined_entries(prefix));
            }
        }
        i = i + 1;
    }
    assert(entries@.take(entries.len() as int) =~= entries@);
    text
}

/// The cells of `otrack report`'s table: one row per application, its
/// class and its duration as `duration_text` shows it.
pub fn report_cells(entries: &Vec<(String, u64)>) -> (rows: Vec<Vec<String>>)
    ensures
        rows@.len() == entries@.len(),
        forall|i: int|
            0 <= i < rows@.len() ==> #[trigger] rows@[i]@.len() == 2 && rows@[i]@[0]@
                == entries@[i].0@ && rows@[i]@[1]@ == duration_text(entries@[i].1 as nat),
{
    let mut rows: Vec<Vec<String>> = Vec::new();
    let mut i: usize = 0;
    while i < entries.len()
        invariant
            i <= entries.len(),
            rows@.len() == i,
            forall|j: int|
                0 <= j < i ==> #[trigger] rows@[j]@.len() == 2 && rows@[j]@[0]@ == entries@[j].0@
                    && rows@[j]@[1]@ == duration_text(entries@[j].1 as nat),
        decreases entries.len() - i,
    {
        let (app, secs) = &entries[i];
        let mut row: Vec<String> = Vec::new();
        row.push(app.clone());
        row.push(format_duration(*secs));
        rows.push(row);
        i = i + 1;
    }
    rows
}

/// The text of a table that `comfy_table::Table` renders, in its default
/// style and content arrangement, with `header` (each cell's characters) as
/// its header row and `rows` below it.
pub uninterp spec fn table_text(header: Seq<Seq<char>>, rows: Seq<Seq<Seq<char>>>) -> Seq<char>;

/// Renders a table through `comfy_table::Table` (`new`, `force_no_tty`,
/// `set_header`, `add_rows`, then its `Display`): `header` as its header row,
/// then `rows`, in the crate's default style. The claim is that the text is
/// `table_text` of the cells' characters: with tty handling switched off and
/// no width set, the crate lays out and draws a table from its cells alone.
#[verifier::external_body]
fn render_table(header: &Vec<String>, rows: &Vec<Vec<String>>) -> (text: String)
    ensures
        text@ == table_text(header.deep_view(), rows.deep_view()),
{
    let mut table = comfy_table::Table::new();
    table.force_no_tty();
    table.set_header(header.clone());
    table.add_rows(rows.clone());
    table.to_string()
}

/// The cells of `otrack report`'s table, row by row: the application's class
/// and its duration as `duration_text` shows it.
pub open spec fn report_rows_text(entries: Seq<(String, u64)>) -> Seq<Seq<Seq<char>>> {
    entries.map_values(|e: (String, u64)| seq![e.0@, duration_text(e.1 as nat)])
}

/// The table that `otrack report` prints: a header `App Class | Duration`
/// over the rows of `report_cells`.
pub fn report_table(entries: &Vec<(String, u64)>) -> (text: String)
    ensures
        text@ == table_text(seq!["App Class"@, "Duration"@], report_rows_text(entries@)),
{
    let mut header: Vec<String> = Vec::new();
    header.push(String::from_str("App Class"));
    header.push(String::from_str("Duration"));
    let rows = report_cells(entries);
    assert(header.deep_view() =~= seq!["App Class"@, "Duration"@]);
    assert forall|i: int| 0 <= i < rows@.len() implies #[trigger] rows@[i].deep_view()
        == report_rows_text(entries@)[i] by {
        assert(rows@[i].deep_view() =~= report_rows_text(entries@)[i]);
    }
    assert(rows.deep_view() =~= report_rows_text(entries@));
    render_table(&header, &rows)
}

/// The Waybar label: `"Total: {duration}"`.
pub fn waybar_text(total_secs: u64) -> (text: String)
    ensures
        text@ == "Total: "@ + duration_text(total_secs as nat),
{
    let mut text = String::from_str("Total: ");
    text.append(format_duration(total_secs).as_str());
    text
}

/// The last line of `otrack report`: `"Total usage today: {duration}"`.
pub fn usage_total_line(total_secs: u64) -> (text: String)
    ensures
        text@ == "Total usage today: "@ + duration_text(total_secs as nat),
{
    let mut text = String::from_str("Total usage today: ");
    text.append(format_duration(total_secs).as_str());
    text
}

/// The dashboard's title over the report: `"Top Apps (Total: {duration})"`.
pub fn dashboard_title(total_secs: u64) -> (text: String)
    ensures
        text@ == "Top Apps (Total: "@ + duration_text(total_secs as nat) + ")"@,
{
    let mut text = String::from_str("Top Apps (Total: ");
    text.append(format_duration(total_secs).as_str());
    text.append(")");
    text
}

/// The dashboard's focus field: the time left (0 where unknown) during a
/// focus session, `"OFF"` otherwise.
pub fn focus_label(is_focus_mode: bool, remaining_secs: Option<u64>) -> (text: String)
    ensures
        text@ == (if is_focus_mode {
            duration_text(
                match remaining_secs {
                    Some(r) => r as nat,
                    None => 0,
                },
            )
        } else {
            "OFF"@
        }),
{
    if is_focus_mode {
        let secs = match remaining_secs {
            Some(r) => r,
            None => 0,
        };
        format_duration(secs)
    } else {
        String::from_str("OFF")
    }
}

/// What `otrack stop` prints.
pub fn focus_stopped_message() -> (text: String)
    ensures
        text@ == "Focus mode stopped"@,
{
    String::from_str("Focus mode stopped")
}

/// What the client prints when the daemon answers with something else than
/// what was asked.
pub fn unexpected_response_message() -> (text: String)
    ensures
        text@ == "Unexpected response from daemon"@,
{
    String::from_str("Unexpected response from daemon")
}

/// How often the dashboard asks the daemon again, in milliseconds.
pub const DASHBOARD_POLL_MILLIS: u64 = 500;

/// Whether a key pressed in the dashboard closes it: `q` does.
pub fn quits_dashboard(key: char) -> (quits: bool)
    ensures
        quits == (key == 'q'),
{
    key == 'q'
}

/// The dashboard's status line, in its four parts: `"App: "`, the active
/// application (empty without one), `" | Focus: "`, and `focus_label`'s text.
/// The second and fourth parts are the ones shown highlighted.
pub fn dashboard_status_parts(
    active_app: Option<String>,
    is_focus_mode: bool,
    remaining_secs: Option<u64>,
) -> (parts: Vec<String>)
    ensures
        parts@.len() == 4,
        parts@[0]@ == "App: "@,
        parts@[1]@ == (match active_app {
            Some(app) => app@,
            None => Seq::<char>::empty(),
        }),
        parts@[2]@ == " | Focus: "@,
        parts@[3]@ == (if is_focus_mode {
            duration_text(
                match remaining_secs {
                    Some(r) => r as nat,
                    None => 0,
                },
            )
        } else {
            "OFF"@
        }),
{
    let mut parts: Vec<String> = Vec::new();
    parts.push(String::from_str("App: "));
    match active_app {
        Some(app) => parts.push(app),
        None => parts.push(String::new()),
    }
    parts.push(String::from_str(" | Focus: "));
    parts.push(focus_label(is_focus_mode, remaining_secs));
    parts
}

/// What `otrack start` prints: `"Focus mode started for {minutes} minutes"`.
pub fn focus_started_message(duration_mins: u32) -> (text: String)
    ensures
        text@ == "Focus mode started for "@ + decimal(duration_mins as nat) + " minutes"@,
{
    let mut text = String::from_str("Focus mode started for ");
    push_decimal(&mut text, duration_mins as u64);
    text.append(" minutes");
    text
}

/// The lines that `otrack status` prints for the daemon's answer, at `now`
/// (Unix nanoseconds): the active application (`"None"` without one), the
/// session's length so far where a session runs, and the focus state with
/// the time left where the daemon gave it. Any other answer is unexpected.
pub open spec fn status_text(response: DaemonResponse, now: i128) -> Seq<Seq<char>> {
    match response {
        DaemonResponse::Status { active_app, session_start, is_focus_mode, focus_remaining_secs } => {
            let header = seq!["--- Current Status ---"@];
            let app_line = "Active App: "@ + match active_app {
                Some(app) => app@,
                None => "None"@,
            };
            let session = match session_start {
                Some(start) => seq![
                    "Session Duration: "@ + duration_text(
                        (whole_seconds(start, now) as u64) as nat,
                    ),
                ],
                None => Seq::empty(),
            };
            let focus = if is_focus_mode {
                seq!["Focus Mode: ACTIVE"@] + match focus_remaining_secs {
                    Some(rem) => seq!["Remaining: "@ + duration_text(rem as nat)],
                    None => Seq::empty(),
                }
            } else {
                seq!["Focus Mode: OFF"@]
            };
            header.push(app_line) + session + focus
        },
        _ => seq!["Unexpected response from daemon"@],
    }
}

/// The lines that `otrack status` prints, as `status_text` says.
pub fn status_lines(response: &DaemonResponse, now: i128) -> (lines: Vec<String>)
    requires
        time_ok(now),
        *response matches DaemonResponse::Status { session_start: Some(start), .. } ==> time_ok(
            start,
        ),
    ensures
        lines@.map_values(|l: String| l@) == status_text(*response, now),
{
    let mut lines: Vec<String> = Vec::new();
    match response {
        DaemonResponse::Status { active_app, session_start, is_focus_mode, focus_remaining_secs } => {
            lines.push(String::from_str("--- Current Status ---"));
            let mut app_line = String::from_str("Active App: ");
            match active_app {
                Some(app) => app_line.append(app.as_str()),
                None => app_line.append("None"),
            }
            lines.push(app_line);
            match session_start {
                Some(start) => {
                    let elapsed = crate::daemon::seconds_between(*start, now) as u64;
                    let mut line = String::from_str("Session Duration: ");
                    line.append(format_duration(elapsed).as_str());
                    lines.push(line);
                },
                None => {},
            }
            if *is_focus_mode {
                lines.push(String::from_str("Focus Mode: ACTIVE"));
                match focus_remaining_secs {
                    Some(rem) => {
                        let mut line = String::from_str("Remaining: ");
                        line.append(format_duration(*rem).as_str());
                        lines.push(line);
                    },
                    None => {},
                }
            } else {
                lines.push(String::from_str("Focus Mode: OFF"));
            }
        },
        _ => {
            lines.push(String::from_str("Unexpected response from daemon"));
        },
    }
    assert(lines@.map_values(|l: String| l@) =~= status_text(*response, now));
    lines
}

} // verus!

verus! {

/// The number that a string of decimal digits denotes.
pub open spec fn decimal_value(digits: Seq<char>) -> int
    decreases digits.len(),
{
    if digits.len() == 0 {
        0
    } else {
        decimal_value(digits.drop_last()) * 10 + (digits.last() as int - '0' as int)
    }
}

/// `decimal(n)` is a non-empty string of digits that denotes `n`.
pub proof fn law_decimal_denotes_number(n: nat)
    ensures
        decimal(n).len() >= 1,
        forall|i: int| 0 <= i < decimal(n).len() ==> '0' <= #[trigger] decimal(n)[i] <= '9',
        decimal_value(decimal(n)) == n,
    decreases n,
{
    assert(forall|d: nat| d < 10 ==> '0' <= #[trigger] digit_char(d) <= '9' && digit_char(d) as int
        - '0' as int == d);
    if n >= 10 {
        law_decimal_denotes_number(n / 10);
        let s = decimal(n);
        assert(s.drop_last() =~= decimal(n / 10));
        assert(s.last() == digit_char(n % 10));
        assert(digit_char(n % 10) as int - '0' as int == n % 10);
        assert(decimal_value(s) == decimal_value(decimal(n / 10)) * 10 + (n % 10));
        assert(n == (n / 10) * 10 + n % 10);
        assert(decimal_value(decimal(n)) == n);
    } else {
        assert(decimal(n).drop_last() =~= Seq::<char>::empty());
        assert(decimal_value(Seq::<char>::empty()) == 0);
        assert(decimal(n).last() == digit_char(n));
        assert(digit_char(n) as int - '0' as int == n);
        assert(decimal_value(decimal(n)) == n);
    }
}

/// The hours, minutes and seconds that `format_duration` shows add up to
/// the duration it was given, with minutes and seconds below 60.
pub proof fn law_duration_parts_add_up(secs: nat)
    ensures
        ({
            let (h, m, s) = duration_parts(secs);
            h * 3600 + m * 60 + s == secs && m < 60 && s < 60
        }),
{
    let h = secs / 3600;
    let r = secs % 3600;
    assert(secs == h * 3600 + r && r < 3600);
    assert(r == (r / 60) * 60 + r % 60 && r % 60 < 60);
    assert(r % 60 == secs % 60) by (nonlinear_arith)
        requires
            secs == h * 3600 + r,
            r < 3600,
            0 <= r,
    {
        assert(secs == (h * 60 + r / 60) * 60 + r % 60);
    }
}

/// Whether every character of `s` is a decimal digit.
pub open spec fn all_digits(s: Seq<char>) -> bool {
    forall|i: int| 0 <= i < s.len() ==> '0' <= #[trigger] s[i] <= '9'
}

/// Two strings of digits, each followed by text that starts with something
/// else than a digit, can only be equal piece by piece.
proof fn lemma_split_after_digits(x1: Seq<char>, y1: Seq<char>, x2: Seq<char>, y2: Seq<char>)
    requires
        all_digits(x1),
        all_digits(x2),
        y1.len() > 0,
        y2.len() > 0,
        !('0' <= y1[0] <= '9'),
        !('0' <= y2[0] <= '9'),
        x1 + y1 == x2 + y2,
    ensures
        x1 == x2,
        y1 == y2,
{
    let t = x1 + y1;
    if x1.len() < x2.len() {
        assert(t[x1.len() as int] == y1[0]);
        assert((x2 + y2)[x1.len() as int] == x2[x1.len() as int]);
    } else if x2.len() < x1.len() {
        assert((x2 + y2)[x2.len() as int] == y2[0]);
        assert(t[x2.len() as int] == x1[x2.len() as int]);
    } else {
        assert(x1 =~= t.take(x1.len() as int));
        assert(x2 =~= (x2 + y2).take(x2.len() as int));
        assert(y1 =~= t.skip(x1.len() as int));
        assert(y2 =~= (x2 + y2).skip(x2.len() as int));
    }
}

/// Different numbers have different decimal representations.
proof fn lemma_decimal_injective(a: nat, b: nat)
    requires
        decimal(a) == decimal(b),
    ensures
        a == b,
{
    law_decimal_denotes_number(a);
    law_decimal_denotes_number(b);
}

/// `decimal(n)` followed by `rest`, split where the digits end.
proof fn lemma_split_decimal(a: nat, ra: Seq<char>, b: nat, rb: Seq<char>)
    requires
        ra.len() > 0,
        rb.len() > 0,
        !('0' <= ra[0] <= '9'),
        !('0' <= rb[0] <= '9'),
        decimal(a) + ra == decimal(b) + rb,
    ensures
        a == b,
        ra == rb,
{
    law_decimal_denotes_number(a);
    law_decimal_denotes_number(b);
    lemma_split_after_digits(decimal(a), ra, decimal(b), rb);
    lemma_decimal_injective(a, b);
}

/// What follows the leading number in `duration_text(secs)`.
spec fn duration_rest(secs: nat) -> Seq<char> {
    let (h, m, s) = duration_parts(secs);
    if h > 0 {
        seq!['h', ' '] + decimal(m) + seq!['m', ' '] + decimal(s) + seq!['s']
    } else if m > 0 {
        seq!['m', ' '] + decimal(s) + seq!['s']
    } else {
        seq!['s']
    }
}

/// The leading number in `duration_text(secs)`.
spec fn duration_lead(secs: nat) -> nat {
    let (h, m, s) = duration_parts(secs);
    if h > 0 {
        h
    } else if m > 0 {
        m
    } else {
        s
    }
}

proof fn lemma_duration_text_shape(secs: nat)
    ensures
        duration_text(secs) == decimal(duration_lead(secs)) + duration_rest(secs),
        duration_rest(secs).len() > 0,
        !('0' <= duration_rest(secs)[0] <= '9'),
{
    assert(duration_text(secs) =~= decimal(duration_lead(secs)) + duration_rest(secs));
}

/// `format_duration` shows different durations differently.
pub proof fn law_duration_text_injective(a: nat, b: nat)
    requires
        duration_text(a) == duration_text(b),
    ensures
        a == b,
{
    lemma_duration_text_shape(a);
    lemma_duration_text_shape(b);
    law_duration_parts_add_up(a);
    law_duration_parts_add_up(b);
    let (ha, ma, sa) = duration_parts(a);
    let (hb, mb, sb) = duration_parts(b);
    let ra = duration_rest(a);
    let rb = duration_rest(b);
    lemma_split_decimal(duration_lead(a), ra, duration_lead(b), rb);
    if ha > 0 {
        assert(ra[0] == 'h');
        assert(hb > 0);
        let ta = decimal(ma) + (seq!['m', ' '] + decimal(sa) + seq!['s']);
        let tb = decimal(mb) + (seq!['m', ' '] + decimal(sb) + seq!['s']);
        assert(ra.skip(2) =~= ta);
        assert(rb.skip(2) =~= tb);
        lemma_split_decimal(ma, seq!['m', ' '] + decimal(sa) + seq!['s'], mb, seq!['m', ' '] + decimal(sb) + seq!['s']);
        let ua = seq!['m', ' '] + decimal(sa) + seq!['s'];
        let ub = seq!['m', ' '] + decimal(sb) + seq!['s'];
        assert(ua.skip(2) =~= decimal(sa) + seq!['s']);
        assert(ub.skip(2) =~= decimal(sb) + seq!['s']);
        lemma_split_decimal(sa, seq!['s'], sb, seq!['s']);
    } else if ma > 0 {
        assert(ra[0] == 'm');
        assert(hb == 0 && mb > 0);
        assert(ra.skip(2) =~= decimal(sa) + seq!['s']);
        assert(rb.skip(2) =~= decimal(sb) + seq!['s']);
        lemma_split_decimal(sa, seq!['s'], sb, seq!['s']);
    } else {
        assert(ra[0] == 's');
        assert(hb == 0 && mb == 0);
    }
}

/// The tooltip of no entries is empty, that of one entry is its line, and
/// each further entry adds a newline and its line: the entries' lines joined
/// by `'\n'`.
pub proof fn law_tooltip_joins_lines(entries: Seq<(String, u64)>, x: (String, u64))
    ensures
        joined_entries(Seq::empty()) == Seq::<char>::empty(),
        joined_entries(seq![x]) == x.0@ + ": "@ + duration_text(x.1 as nat),
        entries.len() > 0 ==> joined_entries(entries.push(x)) == joined_entries(entries) + seq![
            '\n',
        ] + x.0@ + ": "@ + duration_text(x.1 as nat),
{
    assert(entries.push(x).drop_last() =~= entries);
    assert(seq![x].len() == 1);
}

/// The number of newlines in `s`.
pub open spec fn newline_count(s: Seq<char>) -> nat
    decreases s.len(),
{
    if s.len() == 0 {
        0
    } else {
        newline_count(s.drop_last()) + if s.last() == '\n' {
            1nat
        } else {
            0nat
        }
    }
}

proof fn lemma_newline_count_append(a: Seq<char>, b: Seq<char>)
    ensures
        newline_count(a + b) == newline_count(a) + newline_count(b),
    decreases b.len(),
{
    if b.len() > 0 {
        lemma_newline_count_append(a, b.drop_last());
        assert((a + b).drop_last() =~= a + b.drop_last());
    } else {
        assert(a + b =~= a);
    }
}

proof fn lemma_no_newline(s: Seq<char>)
    requires
        forall|i: int| 0 <= i < s.len() ==> s[i] != '\n',
    ensures
        newline_count(s) == 0,
    decreases s.len(),
{
    if s.len() > 0 {
        lemma_no_newline(s.drop_last());
    }
}

/// A tooltip of `n >= 1` entries whose application names hold no newline
/// has exactly `n - 1` newlines: one between each two entries' lines.
pub proof fn law_tooltip_newlines(entries: Seq<(String, u64)>)
    requires
        entries.len() > 0,
        forall|i: int, k: int|
            0 <= i < entries.len() && 0 <= k < entries[i].0@.len() ==> #[trigger] entries[i].0@[k]
                != '\n',
    ensures
        newline_count(joined_entries(entries)) == entries.len() - 1,
    decreases entries.len(),
{
    let x = entries.last();
    let line = entry_text(x);
    law_decimal_denotes_number(0);
    assert forall|k: int| 0 <= k < line.len() implies line[k] != '\n' by {
        let (h, m, s) = duration_parts(x.1 as nat);
        law_decimal_denotes_number(h);
        law_decimal_denotes_number(m);
        law_decimal_denotes_number(s);
        reveal_strlit(": ");
        assert(entries[entries.len() - 1].0@ == x.0@);
        if k < x.0@.len() {
            assert(entries[entries.len() - 1].0@[k] != '\n');
        }
    }
    lemma_no_newline(line);
    if entries.len() == 1 {
    } else {
        let init = entries.drop_last();
        assert forall|i: int, k: int|
            0 <= i < init.len() && 0 <= k < init[i].0@.len() implies #[trigger] init[i].0@[k]
            != '\n' by {
            assert(init[i] == entries[i]);
        }
        law_tooltip_newlines(init);
        lemma_newline_count_append(joined_entries(init), seq!['\n']);
        lemma_newline_count_append(joined_entries(init) + seq!['\n'], line);
        assert(newline_count(seq!['\n']) == 1) by {
            assert(seq!['\n'].drop_last() =~= Seq::<char>::empty());
            assert(newline_count(Seq::<char>::empty()) == 0);
            assert(seq!['\n'].last() == '\n');
        }
    }
}

} // verus!
