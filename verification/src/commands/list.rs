//! Listing the services with what is known of each.

use crate::service::Status;
use crate::text::{
    append_str, chars_of, padded, push_padded, push_repeated, repeated, string_of, strip_prefixes,
    strip_suffixes, texts, without_prefixes, without_suffixes,
};
use crate::util::{get_uptime_from_seconds, uptime_text};
use crate::text::{decimal, decimal_chars};
use vstd::prelude::*;
use vstd::utf8::encode_utf8;

verus! {

/// List services created with basic information.
#[derive(Debug, Clone, Copy, PartialEq, Eq, Structural)]
pub struct ListArgs;

/// What is shown of one service.
#[derive(Debug)]
pub struct ServiceRow {
    /// The application's name.
    pub name: String,
    /// The main process.
    pub pid: String,
    /// Whether the service is active.
    pub status: String,
    /// For how long the main process has run.
    pub uptime: String,
    /// Whether the service is enabled for startup.
    pub enabled: String,
}

/// The cells of a row, in the order of the columns.
pub open spec fn cells(row: ServiceRow) -> Seq<Seq<char>> {
    seq![row.name@, row.pid@, row.status@, row.uptime@, row.enabled@]
}

/// The titles of the columns.
pub open spec fn headers() -> Seq<Seq<char>> {
    seq!["Name"@, "PID"@, "Status"@, "Uptime"@, "Enabled"@]
}

/// The least width of each column.
pub open spec fn least_widths() -> Seq<nat> {
    seq![4, 3, 6, 6, 7]
}

/// The application's name for the unit `unit`: the unit's name without
/// `cres.` in front and `.service` behind.
pub open spec fn service_of(unit: Seq<char>) -> Seq<char> {
    without_suffixes(without_prefixes(unit, "cres."@), ".service"@)
}

/// What stands for a value that is not known.
pub open spec fn unknown() -> Seq<char> {
    "N/A"@
}

/// The cells for a service. `status` tells the main process and the state
/// of an active service; `uptime` tells for how many seconds the main
/// process has run, where it was found.
pub open spec fn cells_for(
    service: Seq<char>,
    status: Option<(u32, Seq<char>)>,
    uptime: Option<u64>,
    enabled: bool,
) -> Seq<Seq<char>> {
    seq![
        service,
        match status {
            Some((pid, _)) => decimal(pid as nat),
            None => unknown(),
        },
        match status {
            Some((_, active)) => active,
            None => unknown(),
        },
        match (status, uptime) {
            (Some(_), Some(secs)) => uptime_text(secs as nat),
            _ => unknown(),
        },
        if enabled {
            "true"@
        } else {
            "false"@
        },
    ]
}

/// The width of the column `col` for the first `upto` rows: the length in
/// bytes of its longest cell, and no less than the column's least width.
pub open spec fn column_width(all: Seq<ServiceRow>, col: int, upto: int) -> nat
    decreases upto,
{
    if upto <= 0 || upto > all.len() {
        least_widths()[col]
    } else {
        let rest = column_width(all, col, upto - 1);
        let here = encode_utf8(cells(all[upto - 1])[col]).len();
        if here > rest {
            here
        } else {
            rest
        }
    }
}

/// The widths of the columns for the rows `all`.
pub open spec fn widths_of(all: Seq<ServiceRow>) -> Seq<nat> {
    Seq::new(5, |col: int| column_width(all, col, all.len() as int))
}

/// A cell filled up with spaces to its column's width, and three spaces.
pub open spec fn cell_text(cell: Seq<char>, width: nat) -> Seq<char> {
    padded(cell, width, ' ') + "   "@
}

/// A line of cells.
pub open spec fn cells_line(c: Seq<Seq<char>>, w: Seq<nat>) -> Seq<char> {
    cell_text(c[0], w[0]) + cell_text(c[1], w[1]) + cell_text(c[2], w[2]) + cell_text(c[3], w[3])
        + cell_text(c[4], w[4])
}

/// A column's stretch of the separator: dashes for its width, and a bar.
pub open spec fn dash_text(width: nat) -> Seq<char> {
    repeated('-', width) + " | "@
}

/// The line between the titles and the rows.
pub open spec fn separator_line(w: Seq<nat>) -> Seq<char> {
    dash_text(w[0]) + dash_text(w[1]) + dash_text(w[2]) + dash_text(w[3]) + dash_text(w[4])
}

/// The lines of the table: the titles, the separator, and one line for
/// each row. Without a row there is one line that says so.
pub open spec fn table_lines(all: Seq<ServiceRow>) -> Seq<Seq<char>> {
    if all.len() == 0 {
        seq!["No services found."@]
    } else {
        seq![cells_line(headers(), widths_of(all)), separator_line(widths_of(all))] + Seq::new(
            all.len(),
            |i: int| cells_line(cells(all[i]), widths_of(all)),
        )
    }
}

/// The greater of two widths.
fn wider(a: usize, b: usize) -> (r: usize)
    ensures
        r == (if b > a {
            b
        } else {
            a
        }),
{
    if b > a {
        b
    } else {
        a
    }
}

/// Appends a cell, filled up to its column's width.
fn push_cell(out: &mut Vec<char>, cell: &str, width: usize)
    ensures
        final(out)@ == old(out)@ + cell_text(cell@, width as nat),
{
    push_padded(out, &chars_of(cell), width, ' ');
    append_str(out, "   ");
    assert(out@ =~= old(out)@ + cell_text(cell@, width as nat));
}

/// Appends a column's stretch of the separator.
fn push_dashes(out: &mut Vec<char>, width: usize)
    ensures
        final(out)@ == old(out)@ + dash_text(width as nat),
{
    push_repeated(out, '-', width);
    append_str(out, " | ");
    assert(out@ =~= old(out)@ + dash_text(width as nat));
}

/// The line of a row.
fn row_line(row: &ServiceRow, w: &[usize; 5]) -> (r: String)
    ensures
        r@ == cells_line(
            cells(*row),
            seq![w[0] as nat, w[1] as nat, w[2] as nat, w[3] as nat, w[4] as nat],
        ),
{
    let mut out: Vec<char> = Vec::new();
    push_cell(&mut out, row.name.as_str(), w[0]);
    push_cell(&mut out, row.pid.as_str(), w[1]);
    push_cell(&mut out, row.status.as_str(), w[2]);
    push_cell(&mut out, row.uptime.as_str(), w[3]);
    push_cell(&mut out, row.enabled.as_str(), w[4]);
    assert(out@ =~= cells_line(
        cells(*row),
        seq![w[0] as nat, w[1] as nat, w[2] as nat, w[3] as nat, w[4] as nat],
    ));
    string_of(&out)
}

impl ListArgs {
    /// The application's name for a unit of the service manager.
    pub fn service_name(unit: &str) -> (r: String)
        ensures
            r@ == service_of(unit@),
    {
        let bare = strip_prefixes(&chars_of(unit), &chars_of("cres."));
        string_of(&strip_suffixes(&bare, &chars_of(".service")))
    }

    /// The row for a service. `status` is the status of an active service;
    /// `uptime` tells for how many seconds the main process has run, where
    /// it was found.
    pub fn row(service: String, status: Option<&Status>, uptime: Option<u64>, enabled: bool) -> (r:
        ServiceRow)
        ensures
            cells(r) == cells_for(
                service@,
                match status {
                    Some(s) => Some((s.pid, s.active@)),
                    None => None,
                },
                uptime,
                enabled,
            ),
    {
        let enabled_text = if enabled {
            string_of(&chars_of("true"))
        } else {
            string_of(&chars_of("false"))
        };
        match status {
            Some(status) => ServiceRow {
                name: service,
                pid: string_of(&decimal_chars(status.pid as u64)),
                status: status.active.clone(),
                uptime: match uptime {
                    Some(secs) => get_uptime_from_seconds(secs),
                    None => string_of(&chars_of("N/A")),
                },
                enabled: enabled_text,
            },
            None => ServiceRow {
                name: service,
                pid: string_of(&chars_of("N/A")),
                status: string_of(&chars_of("N/A")),
                uptime: string_of(&chars_of("N/A")),
                enabled: enabled_text,
            },
        }
    }

    /// The lines of the table of the services.
    pub fn run(services: &Vec<ServiceRow>) -> (r: Vec<String>)
        ensures
            texts(r@) == table_lines(services@),
    {
        let mut out: Vec<String> = Vec::new();
        if services.len() == 0 {
            out.push(string_of(&chars_of("No services found.")));
            assert(texts(out@) =~= table_lines(services@));
            return out;
        }
        let n = services.len();
        let mut w: [usize; 5] = [4, 3, 6, 6, 7];
        let mut i: usize = 0;
        // Get the max width for each column
        while i < n
            invariant
                i <= n,
                n == services.len(),
                forall|col: int| 0 <= col < 5 ==> w[col] == #[trigger] column_width(
                    services@,
                    col,
                    i as int,
                ),
            decreases n - i,
        {
            let row = &services[i];
            proof {
                assert(w[0] == column_width(services@, 0, i as int));
                assert(w[1] == column_width(services@, 1, i as int));
                assert(w[2] == column_width(services@, 2, i as int));
                assert(w[3] == column_width(services@, 3, i as int));
                assert(w[4] == column_width(services@, 4, i as int));
            }
            let w0 = wider(w[0], row.name.as_str().as_bytes().len());
            let w1 = wider(w[1], row.pid.as_str().as_bytes().len());
            let w2 = wider(w[2], row.status.as_str().as_bytes().len());
            let w3 = wider(w[3], row.uptime.as_str().as_bytes().len());
            let w4 = wider(w[4], row.enabled.as_str().as_bytes().len());
            proof {
                let c = cells(services@[i as int]);
                assert(c[0] == row.name@ && c[1] == row.pid@ && c[2] == row.status@ && c[3]
                    == row.uptime@ && c[4] == row.enabled@);
                assert(w0 == column_width(services@, 0, i + 1));
                assert(w1 == column_width(services@, 1, i + 1));
                assert(w2 == column_width(services@, 2, i + 1));
                assert(w3 == column_width(services@, 3, i + 1));
                assert(w4 == column_width(services@, 4, i + 1));
            }
            w = [w0, w1, w2, w3, w4];
            i += 1;
        }
        let ghost widths = widths_of(services@);
        proof {
            assert(widths =~= seq![
                w[0] as nat,
                w[1] as nat,
                w[2] as nat,
                w[3] as nat,
                w[4] as nat,
            ]);
        }
        // Print the headers
        let mut header: Vec<char> = Vec::new();
        push_cell(&mut header, "Name", w[0]);
        push_cell(&mut header, "PID", w[1]);
        push_cell(&mut header, "Status", w[2]);
        push_cell(&mut header, "Uptime", w[3]);
        push_cell(&mut header, "Enabled", w[4]);
        assert(header@ =~= cells_line(headers(), widths));
        out.push(string_of(&header));
        // Print the separator
        let mut separator: Vec<char> = Vec::new();
        push_dashes(&mut separator, w[0]);
        push_dashes(&mut separator, w[1]);
        push_dashes(&mut separator, w[2]);
        push_dashes(&mut separator, w[3]);
        push_dashes(&mut separator, w[4]);
        assert(separator@ =~= separator_line(widths));
        out.push(string_of(&separator));
        // Print the rows
        let mut k: usize = 0;
        while k < n
            invariant
                k <= n,
                n == services.len(),
                out.len() == k + 2,
                out@[0]@ == cells_line(headers(), widths),
                out@[1]@ == separator_line(widths),
                widths == seq![w[0] as nat, w[1] as nat, w[2] as nat, w[3] as nat, w[4] as nat],
                forall|j: int|
                    0 <= j < k ==> (#[trigger] out@[j + 2])@ == cells_line(
                        cells(services@[j]),
                        widths,
                    ),
            decreases n - k,
        {
            out.push(row_line(&services[k], &w));
            k += 1;
        }
        proof {
            let want = table_lines(services@);
            assert(texts(out@).len() == want.len());
            assert forall|j: int| 0 <= j < want.len() implies texts(out@)[j] == want[j] by {
                if j >= 2 {
                    assert(out@[(j - 2) + 2]@ == cells_line(cells(services@[j - 2]), widths));
                }
            }
            assert(texts(out@) =~= want);
        }
        out
    }
}

} // verus!
