//! Text of the status views: one line per gate, and the rows of the work
//! item list.
use vstd::prelude::*;
use crate::gate::{Gate, GateStatus, gate_text, status_text};

verus! {

/// `n` spaces.
pub open spec fn spaces(n: nat) -> Seq<char> {
    Seq::new(n, |i: int| ' ')
}

/// `s` padded on the right with spaces to at least `w` characters.
pub open spec fn pad_right(s: Seq<char>, w: nat) -> Seq<char> {
    if s.len() >= w {
        s
    } else {
        s + spaces((w - s.len()) as nat)
    }
}

/// Pads `s` on the right with spaces to at least `w` characters.
pub fn pad(s: &str, w: usize) -> (r: String)
    ensures
        r@ == pad_right(s@, w as nat),
{
    let n = s.unicode_len();
    let mut r = String::from_str(s);
    if n >= w {
        return r;
    }
    let mut k: usize = n;
    while k < w
        invariant
            n == s@.len(),
            n <= k <= w,
            r@ == s@ + spaces((k - n) as nat),
        decreases w - k,
    {
        r.append(" ");
        proof {
            reveal_strlit(" ");
            assert(r@ =~= s@ + spaces((k + 1 - n) as nat));
        }
        k = k + 1;
    }
    r
}

/// The marker of a status in views of gates.
pub open spec fn icon_text(s: GateStatus) -> Seq<char> {
    match s {
        GateStatus::Pass => "OK"@,
        GateStatus::Fail => "XX"@,
        GateStatus::InProgress => ">>"@,
        GateStatus::ChangesRequested => "CR"@,
        GateStatus::Todo => "  "@,
    }
}

/// The marker of a status in views of gates.
pub fn status_icon(s: GateStatus) -> (r: &'static str)
    ensures
        r@ == icon_text(s),
{
    match s {
        GateStatus::Pass => "OK",
        GateStatus::Fail => "XX",
        GateStatus::InProgress => ">>",
        GateStatus::ChangesRequested => "CR",
        GateStatus::Todo => "  ",
    }
}

/// Width of the column of gate names.
pub const GATE_COLUMN: usize = 20;

/// One line of a gate view: marker, name in its column, status.
pub open spec fn gate_line_text(g: Gate, s: GateStatus) -> Seq<char> {
    "  ["@ + icon_text(s) + "] "@ + pad_right(gate_text(g), GATE_COLUMN as nat) + " "@ + status_text(s)
}

/// Writes one line of a gate view.
pub fn gate_line(g: Gate, s: GateStatus) -> (r: String)
    ensures
        r@ == gate_line_text(g, s),
{
    let mut r = String::from_str("  [");
    r.append(status_icon(s));
    r.append("] ");
    let name = pad(g.name(), GATE_COLUMN);
    r.append(name.as_str());
    r.append(" ");
    r.append(s.as_str());
    r
}

/// Width of the id column of the work item list.
pub const ID_COLUMN: usize = 20;

/// Width of the status and owner columns of the work item list.
pub const NAME_COLUMN: usize = 15;

/// One row of the work item list.
pub open spec fn work_row_text(id: Seq<char>, status: Seq<char>, owner: Seq<char>, title: Seq<char>) -> Seq<char> {
    pad_right(id, ID_COLUMN as nat) + " "@ + pad_right(status, NAME_COLUMN as nat) + " "@ + pad_right(
        owner,
        NAME_COLUMN as nat,
    ) + " "@ + title
}

/// Writes one row of the work item list.
pub fn work_row(id: &str, status: &str, owner: &str, title: &str) -> (r: String)
    ensures
        r@ == work_row_text(id@, status@, owner@, title@),
{
    let mut r = pad(id, ID_COLUMN);
    r.append(" ");
    let s = pad(status, NAME_COLUMN);
    r.append(s.as_str());
    r.append(" ");
    let o = pad(owner, NAME_COLUMN);
    r.append(o.as_str());
    r.append(" ");
    r.append(title);
    r
}

} // verus!
