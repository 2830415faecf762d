//! The text layout of a briefing. A briefing's measurements (gravity,
//! energy, conservation) are floating point; they arrive here already
//! written as text, and this module lays the report out line by line.
use crate::text::decimal_string;
use crate::text::decimal_text;
use vstd::prelude::*;

verus! {

/// One room of a briefing, its gravity already written with two decimals.
#[derive(Debug, Clone)]
pub struct RoomReport {
    pub id: String,
    pub gravity: String,
    pub alert: String,
    pub tile_count: u32,
}

/// One ensign of a briefing, its energy already written as a percentage
/// with one decimal.
#[derive(Debug, Clone)]
pub struct EnsignReport {
    pub id: String,
    pub status: String,
    pub energy_percent: String,
    pub room: Option<String>,
}

/// Everything a rendered briefing shows, the conservation level already
/// written as a percentage with one decimal.
#[derive(Debug, Clone)]
pub struct BriefingLayout {
    pub from_shell: String,
    pub conservation_percent: String,
    pub rooms: Vec<RoomReport>,
    pub ensigns: Vec<EnsignReport>,
    pub alerts: Vec<String>,
    pub summary: String,
    pub requires_attention: bool,
}

/// Lines joined by a separator, which stands between neighbours only.
pub open spec fn join_lines(lines: Seq<Seq<char>>, sep: Seq<char>) -> Seq<char>
    decreases lines.len(),
{
    if lines.len() == 0 {
        Seq::empty()
    } else if lines.len() == 1 {
        lines[0]
    } else {
        join_lines(lines.drop_last(), sep) + sep + lines.last()
    }
}

/// `  id — g=gravity alert=alert tiles=count`
pub open spec fn room_line(r: RoomReport) -> Seq<char> {
    "  "@ + r.id@ + " — g="@ + r.gravity@ + " alert="@ + r.alert@ + " tiles="@ + decimal_text(
        r.tile_count as nat,
    )
}

/// ` room=name` for an ensign in a room, else nothing.
pub open spec fn room_note(room: Option<String>) -> Seq<char> {
    match room {
        Some(r) => " room="@ + r@,
        None => Seq::empty(),
    }
}

/// `  id — status energy=percent%` and the room note.
pub open spec fn ensign_line(e: EnsignReport) -> Seq<char> {
    "  "@ + e.id@ + " — "@ + e.status@ + " energy="@ + e.energy_percent@ + "%"@ + room_note(e.room)
}

/// `  ⚠ alert`
pub open spec fn alert_line(a: String) -> Seq<char> {
    "  ⚠ "@ + a@
}

/// One line per room, in order.
pub open spec fn room_lines(rooms: Seq<RoomReport>) -> Seq<Seq<char>>
    decreases rooms.len(),
{
    if rooms.len() == 0 {
        Seq::empty()
    } else {
        room_lines(rooms.drop_last()).push(room_line(rooms.last()))
    }
}

/// One line per ensign, in order.
pub open spec fn ensign_lines(ensigns: Seq<EnsignReport>) -> Seq<Seq<char>>
    decreases ensigns.len(),
{
    if ensigns.len() == 0 {
        Seq::empty()
    } else {
        ensign_lines(ensigns.drop_last()).push(ensign_line(ensigns.last()))
    }
}

/// One line per alert, in order.
pub open spec fn alert_lines(alerts: Seq<String>) -> Seq<Seq<char>>
    decreases alerts.len(),
{
    if alerts.len() == 0 {
        Seq::empty()
    } else {
        alert_lines(alerts.drop_last()).push(alert_line(alerts.last()))
    }
}

/// A titled section: nothing where there are no entries, else the title
/// followed by the entries' lines.
pub open spec fn section(title: Seq<char>, entries: Seq<Seq<char>>) -> Seq<Seq<char>> {
    if entries.len() == 0 {
        Seq::empty()
    } else {
        seq![title] + entries
    }
}

impl BriefingLayout {
    /// The lines of the rendered briefing: the title, the conservation
    /// level, the rooms, ensigns and alerts sections where not empty, the
    /// summary where not empty, and a closing warning where the briefing
    /// requires attention.
    pub open spec fn lines(self) -> Seq<Seq<char>> {
        seq!["=== Briefing from "@ + self.from_shell@ + " ==="@, "Conservation: "@ + self.conservation_percent@ + "%"@]
            + section("Rooms:"@, room_lines(self.rooms@)) + section("Ensigns:"@, ensign_lines(self.ensigns@))
            + section("Alerts:"@, alert_lines(self.alerts@)) + (if self.summary@.len() == 0 {
            Seq::<Seq<char>>::empty()
        } else {
            seq!["Summary: "@ + self.summary@]
        }) + (if self.requires_attention {
            seq!["⚠ REQUIRES ATTENTION"@]
        } else {
            Seq::<Seq<char>>::empty()
        })
    }

    /// The briefing as multi-line text: its lines joined by newlines.
    pub fn render(&self) -> (text: String)
        ensures
            text@ == join_lines(self.lines(), "\n"@),
    {
        let mut out = String::from_str("=== Briefing from ");
        out.append(self.from_shell.as_str());
        out.append(" ===");
        let ghost first: Seq<Seq<char>> = seq!["=== Briefing from "@ + self.from_shell@ + " ==="@];
        let mut line = String::from_str("Conservation: ");
        line.append(self.conservation_percent.as_str());
        line.append("%");
        push_line(&mut out, line.as_str(), Ghost(first));
        let ghost d0 = first.push(line@);
        push_rooms(&mut out, &self.rooms, Ghost(d0));
        let ghost d1 = d0 + section("Rooms:"@, room_lines(self.rooms@));
        push_ensigns(&mut out, &self.ensigns, Ghost(d1));
        let ghost d2 = d1 + section("Ensigns:"@, ensign_lines(self.ensigns@));
        push_alerts(&mut out, &self.alerts, Ghost(d2));
        let ghost d3 = d2 + section("Alerts:"@, alert_lines(self.alerts@));
        let ghost summary_part: Seq<Seq<char>> = if self.summary@.len() == 0 {
            Seq::<Seq<char>>::empty()
        } else {
            seq!["Summary: "@ + self.summary@]
        };
        if self.summary.as_str().unicode_len() > 0 {
            let mut line = String::from_str("Summary: ");
            line.append(self.summary.as_str());
            push_line(&mut out, line.as_str(), Ghost(d3));
            assert(d3.push(line@) =~= d3 + summary_part);
        } else {
            assert(d3 + summary_part =~= d3);
        }
        let ghost d4 = d3 + summary_part;
        let ghost attention_part: Seq<Seq<char>> = if self.requires_attention {
            seq!["⚠ REQUIRES ATTENTION"@]
        } else {
            Seq::<Seq<char>>::empty()
        };
        if self.requires_attention {
            push_line(&mut out, "⚠ REQUIRES ATTENTION", Ghost(d4));
            assert(d4.push("⚠ REQUIRES ATTENTION"@) =~= d4 + attention_part);
        } else {
            assert(d4 + attention_part =~= d4);
        }
        assert(d4 + attention_part =~= self.lines());
        out
    }
}

/// Appends the rooms section.
fn push_rooms(out: &mut String, rooms: &Vec<RoomReport>, Ghost(done): Ghost<Seq<Seq<char>>>)
    requires
        done.len() >= 1,
        old(out)@ == join_lines(done, "\n"@),
    ensures
        final(out)@ == join_lines(done + section("Rooms:"@, room_lines(rooms@)), "\n"@),
{
    if rooms.len() == 0 {
        assert(done + section("Rooms:"@, room_lines(rooms@)) =~= done);
        return;
    }
    push_line(out, "Rooms:", Ghost(done));
    let ghost base = done.push("Rooms:"@);
    assert(base + room_lines(rooms@.take(0)) =~= base);
    let mut i: usize = 0;
    while i < rooms.len()
        invariant
            i <= rooms@.len(),
            base.len() >= 1,
            out@ == join_lines(base + room_lines(rooms@.take(i as int)), "\n"@),
        decreases rooms@.len() - i,
    {
        let line = room_text(&rooms[i]);
        proof {
            assert(rooms@.take(i + 1).drop_last() =~= rooms@.take(i as int));
            assert((base + room_lines(rooms@.take(i as int))).push(line@) =~= base + room_lines(
                rooms@.take(i + 1),
            ));
        }
        push_line(out, line.as_str(), Ghost(base + room_lines(rooms@.take(i as int))));
        i = i + 1;
    }
    assert(rooms@.take(i as int) =~= rooms@);
    assert(base + room_lines(rooms@) =~= done + section("Rooms:"@, room_lines(rooms@)));
}

/// Appends the ensigns section.
fn push_ensigns(out: &mut String, ensigns: &Vec<EnsignReport>, Ghost(done): Ghost<Seq<Seq<char>>>)
    requires
        done.len() >= 1,
        old(out)@ == join_lines(done, "\n"@),
    ensures
        final(out)@ == join_lines(done + section("Ensigns:"@, ensign_lines(ensigns@)), "\n"@),
{
    if ensigns.len() == 0 {
        assert(done + section("Ensigns:"@, ensign_lines(ensigns@)) =~= done);
        return;
    }
    push_line(out, "Ensigns:", Ghost(done));
    let ghost base = done.push("Ensigns:"@);
    assert(base + ensign_lines(ensigns@.take(0)) =~= base);
    let mut i: usize = 0;
    while i < ensigns.len()
        invariant
            i <= ensigns@.len(),
            base.len() >= 1,
            out@ == join_lines(base + ensign_lines(ensigns@.take(i as int)), "\n"@),
        decreases ensigns@.len() - i,
    {
        let line = ensign_text(&ensigns[i]);
        proof {
            assert(ensigns@.take(i + 1).drop_last() =~= ensigns@.take(i as int));
            assert((base + ensign_lines(ensigns@.take(i as int))).push(line@) =~= base + ensign_lines(
                ensigns@.take(i + 1),
            ));
        }
        push_line(out, line.as_str(), Ghost(base + ensign_lines(ensigns@.take(i as int))));
        i = i + 1;
    }
    assert(ensigns@.take(i as int) =~= ensigns@);
    assert(base + ensign_lines(ensigns@) =~= done + section("Ensigns:"@, ensign_lines(ensigns@)));
}

/// Appends the alerts section.
fn push_alerts(out: &mut String, alerts: &Vec<String>, Ghost(done): Ghost<Seq<Seq<char>>>)
    requires
        done.len() >= 1,
        old(out)@ == join_lines(done, "\n"@),
    ensures
        final(out)@ == join_lines(done + section("Alerts:"@, alert_lines(alerts@)), "\n"@),
{
    if alerts.len() == 0 {
        assert(done + section("Alerts:"@, alert_lines(alerts@)) =~= done);
        return;
    }
    push_line(out, "Alerts:", Ghost(done));
    let ghost base = done.push("Alerts:"@);
    assert(base + alert_lines(alerts@.take(0)) =~= base);
    let mut i: usize = 0;
    while i < alerts.len()
        invariant
            i <= alerts@.len(),
            base.len() >= 1,
            out@ == join_lines(base + alert_lines(alerts@.take(i as int)), "\n"@),
        decreases alerts@.len() - i,
    {
        let mut line = String::from_str("  ⚠ ");
        line.append(alerts[i].as_str());
        proof {
            assert(alerts@.take(i + 1).drop_last() =~= alerts@.take(i as int));
            assert((base + alert_lines(alerts@.take(i as int))).push(line@) =~= base + alert_lines(
                alerts@.take(i + 1),
            ));
        }
        push_line(out, line.as_str(), Ghost(base + alert_lines(alerts@.take(i as int))));
        i = i + 1;
    }
    assert(alerts@.take(i as int) =~= alerts@);
    assert(base + alert_lines(alerts@) =~= done + section("Alerts:"@, alert_lines(alerts@)));
}

/// Appends one more line to text holding `lines` joined by newlines.
fn push_line(out: &mut String, line: &str, Ghost(lines): Ghost<Seq<Seq<char>>>)
    requires
        lines.len() >= 1,
        old(out)@ == join_lines(lines, "\n"@),
    ensures
        final(out)@ == join_lines(lines.push(line@), "\n"@),
{
    out.append("\n");
    out.append(line);
    assert(lines.push(line@).drop_last() =~= lines);
}

/// The line of one room.
fn room_text(r: &RoomReport) -> (s: String)
    ensures
        s@ == room_line(*r),
{
    let mut s = String::from_str("  ");
    s.append(r.id.as_str());
    s.append(" — g=");
    s.append(r.gravity.as_str());
    s.append(" alert=");
    s.append(r.alert.as_str());
    s.append(" tiles=");
    let count = decimal_string(r.tile_count as u128);
    s.append(count.as_str());
    s
}

/// The line of one ensign.
fn ensign_text(e: &EnsignReport) -> (s: String)
    ensures
        s@ == ensign_line(*e),
{
    let mut s = String::from_str("  ");
    s.append(e.id.as_str());
    s.append(" — ");
    s.append(e.status.as_str());
    s.append(" energy=");
    s.append(e.energy_percent.as_str());
    s.append("%");
    match &e.room {
        Some(r) => {
            let ghost before = s@;
            s.append(" room=");
            s.append(r.as_str());
            assert(s@ =~= before + (" room="@ + r@));
        },
        None => {
            assert(s@ + Seq::<char>::empty() =~= s@);
        },
    }
    s
}

} // verus!
