//! The text that the `get` commands and the monitor print.
use vstd::prelude::*;

use crate::cpu::CPU;
use crate::power::battery::BatteryStatus;
use crate::power::lid::lid_state_name;
use crate::power::lid::LidState;
use crate::text::concat;
use crate::text::dec_int;
use crate::text::fmt_i64;
use crate::text::free_of;
use crate::text::join_after;
use crate::text::lemma_split_free;
use crate::text::lemma_split_join;
use crate::text::parse_bool;
use crate::text::pop_last;
use crate::text::split_char;
use crate::text::views;

verus! {

/// A list as printed: in raw form one item per line, else the items each
/// followed by a space, then a newline.
pub open spec fn list_text(items: Seq<Seq<char>>, raw: bool) -> Seq<char> {
    if raw {
        join_after(items, "\n"@)
    } else {
        join_after(items, " "@) + "\n"@
    }
}

proof fn lemma_split_joined(items: Seq<Seq<char>>, t: Seq<char>)
    requires
        forall|i: int| 0 <= i < items.len() ==> free_of(#[trigger] items[i], '\n'),
    ensures
        split_char(join_after(items, "\n"@) + t, '\n') == items + split_char(t, '\n'),
    decreases items.len(),
{
    reveal_strlit("\n");
    if items.len() == 0 {
        assert(join_after(items, "\n"@) + t =~= t);
        assert(items + split_char(t, '\n') =~= split_char(t, '\n'));
    } else {
        let prev = items.drop_last();
        let last = items.last();
        assert(free_of(items[items.len() - 1], '\n'));
        lemma_split_joined(prev, last);
        lemma_split_free(last, '\n');
        let head = join_after(prev, "\n"@) + last;
        assert(join_after(items, "\n"@) + t =~= head + seq!['\n'] + t);
        lemma_split_join(head, t, '\n');
        assert(split_char(head, '\n') =~= prev + seq![last]);
        assert(prev + seq![last] + split_char(t, '\n') =~= items + split_char(t, '\n'));
    }
}

/// A raw list prints one item per line: for items without a newline, the
/// lines of the raw text are the items, then the empty rest after the last
/// newline (what a script reading the lines gets back).
pub proof fn law_raw_list_lines(items: Seq<Seq<char>>)
    requires
        forall|i: int| 0 <= i < items.len() ==> free_of(#[trigger] items[i], '\n'),
    ensures
        split_char(list_text(items, true), '\n') == items.push(Seq::<char>::empty()),
{
    lemma_split_joined(items, Seq::<char>::empty());
    assert(join_after(items, "\n"@) + Seq::<char>::empty() =~= join_after(items, "\n"@));
    assert(split_char(Seq::<char>::empty(), '\n') =~= seq![Seq::<char>::empty()]);
    assert(items + seq![Seq::<char>::empty()] =~= items.push(Seq::<char>::empty()));
}

/// The decimal texts of numbers.
pub open spec fn int_texts(v: Seq<i32>) -> Seq<Seq<char>> {
    v.map_values(|x: i32| dec_int(x as int))
}

fn join_strings(items: &Vec<String>, sep: &str) -> (s: String)
    ensures
        s@ == join_after(views(items@), sep@),
{
    let mut s = String::new();
    let mut i: usize = 0;
    assert(views(items@).take(0) =~= Seq::<Seq<char>>::empty());
    while i < items.len()
        invariant
            i <= items.len(),
            s@ == join_after(views(items@).take(i as int), sep@),
        decreases items.len() - i,
    {
        let a = concat(s.as_str(), items[i].as_str());
        s = concat(a.as_str(), sep);
        assert(views(items@).take(i + 1).drop_last() =~= views(items@).take(i as int));
        i = i + 1;
    }
    assert(views(items@).take(items.len() as int) =~= views(items@));
    s
}

fn print_strings(items: &Vec<String>, raw: bool) -> (s: String)
    ensures
        s@ == list_text(views(items@), raw),
{
    if raw {
        join_strings(items, "\n")
    } else {
        let j = join_strings(items, " ");
        concat(j.as_str(), "\n")
    }
}

fn int_strings(v: &Vec<i32>) -> (r: Vec<String>)
    ensures
        views(r@) == int_texts(v@),
{
    let mut r: Vec<String> = Vec::new();
    let mut i: usize = 0;
    while i < v.len()
        invariant
            i <= v.len(),
            views(r@) == int_texts(v@.take(i as int)),
        decreases v.len() - i,
    {
        let t = fmt_i64(v[i] as i64);
        let ghost before = r@;
        r.push(t);
        assert(views(r@) =~= views(before).push(t@));
        assert(int_texts(v@.take(i + 1)) =~= int_texts(v@.take(i as int)).push(
            dec_int(v@[i as int] as int),
        ));
        i = i + 1;
    }
    assert(v@.take(v.len() as int) =~= v@);
    r
}

/// The text that lists the available governors.
pub fn print_available_governors(available_governors: Vec<String>, raw: bool) -> (s: String)
    ensures
        s@ == list_text(views(available_governors@), raw),
{
    print_strings(&available_governors, raw)
}

/// The text that lists the core speeds.
pub fn print_cpu_speeds(cpu_speeds: Vec<i32>, raw: bool) -> (s: String)
    ensures
        s@ == list_text(int_texts(cpu_speeds@), raw),
{
    print_strings(&int_strings(&cpu_speeds), raw)
}

/// The text that lists the core temperatures.
pub fn print_cpu_temp(cpu_temp: Vec<i32>, raw: bool) -> (s: String)
    ensures
        s@ == list_text(int_texts(cpu_temp@), raw),
{
    print_strings(&int_strings(&cpu_temp), raw)
}

/// The text that lists the core governors.
pub fn print_cpu_governors(cpu_governors: Vec<String>, raw: bool) -> (s: String)
    ensures
        s@ == list_text(views(cpu_governors@), raw),
{
    print_strings(&cpu_governors, raw)
}

/// The text that says whether turbo is enabled.
pub open spec fn turbo_text(t: bool, raw: bool) -> Seq<char> {
    if raw {
        if t {
            "true\n"@
        } else {
            "false\n"@
        }
    } else if t {
        "Turbo is enabled\n"@
    } else {
        "Turbo is not enabled\n"@
    }
}

/// The raw turbo line is the boolean and a newline: read back as a
/// boolean (`bool::from_str` on the line without its newline) it gives
/// whether turbo is enabled; the plain line says so in words, and differs
/// for the two answers.
pub proof fn law_raw_turbo_reads_back(t: bool)
    ensures
        turbo_text(t, true).last() == '\n',
        parse_bool(pop_last(turbo_text(t, true))) == Some(t),
        turbo_text(true, false) != turbo_text(false, false),
{
    reveal_strlit("true\n");
    reveal_strlit("false\n");
    reveal_strlit("Turbo is enabled\n");
    reveal_strlit("Turbo is not enabled\n");
    assert("true\n"@.drop_last() =~= seq!['t', 'r', 'u', 'e']);
    assert("false\n"@.drop_last() =~= seq!['f', 'a', 'l', 's', 'e']);
    assert("Turbo is enabled\n"@.len() != "Turbo is not enabled\n"@.len());
}

/// The text that says whether turbo is enabled.
pub fn print_turbo(t: bool, raw: bool) -> (s: String)
    ensures
        s@ == turbo_text(t, raw),
{
    if raw {
        if t {
            String::from_str("true\n")
        } else {
            String::from_str("false\n")
        }
    } else if t {
        String::from_str("Turbo is enabled\n")
    } else {
        String::from_str("Turbo is not enabled\n")
    }
}

fn bool_word(b: bool) -> (s: &'static str)
    ensures
        s@ == if b {
            "true"@
        } else {
            "false"@
        },
{
    if b {
        "true"
    } else {
        "false"
    }
}

/// The text that reports the lid, the battery charge and the charger.
pub open spec fn power_text(lid: LidState, bat: i8, plugged: bool, raw: bool) -> Seq<char> {
    let p = if plugged {
        "true"@
    } else {
        "false"@
    };
    if raw {
        lid_state_name(lid) + " "@ + dec_int(bat as int) + " "@ + p + "\n"@
    } else {
        "Lid: "@ + lid_state_name(lid) + " Battery: "@ + dec_int(bat as int) + " Plugged: "@ + p
            + "\n"@
    }
}

/// The text that reports the lid, the battery charge and the charger.
pub fn print_power(lid: LidState, bat: i8, plugged: bool, raw: bool) -> (s: String)
    ensures
        s@ == power_text(lid, bat, plugged, raw),
{
    let l = lid.name();
    let b = fmt_i64(bat as i64);
    let p = bool_word(plugged);
    let s = if raw {
        let a = concat(l, " ");
        let c = concat(a.as_str(), b.as_str());
        let d = concat(c.as_str(), " ");
        let e = concat(d.as_str(), p);
        concat(e.as_str(), "\n")
    } else {
        let a = concat("Lid: ", l);
        let c = concat(a.as_str(), " Battery: ");
        let d = concat(c.as_str(), b.as_str());
        let e = concat(d.as_str(), " Plugged: ");
        let f = concat(e.as_str(), p);
        concat(f.as_str(), "\n")
    };
    assert(s@ =~= power_text(lid, bat, plugged, raw));
    s
}

/// The text that reports the battery condition, in percent.
pub fn print_bat_cond(c: i8, raw: bool) -> (s: String)
    ensures
        s@ == if raw {
            dec_int(c as int) + "\n"@
        } else {
            dec_int(c as int) + "%\n"@
        },
{
    let t = fmt_i64(c as i64);
    if raw {
        concat(t.as_str(), "\n")
    } else {
        concat(t.as_str(), "%\n")
    }
}

/// Integer division rounding toward zero, as Rust's `/` on integers does.
pub open spec fn trunc_div(a: int, b: int) -> int {
    if a >= 0 {
        a / b
    } else {
        -((-a) / b)
    }
}

/// A reading in thousandths (kHz, millidegrees) as whole units (MHz,
/// degrees), rounded toward zero as integer division does.
fn in_thousands(x: i32) -> (m: i32)
    ensures
        m == trunc_div(x as int, 1000),
{
    if x >= 0 {
        x / 1000
    } else {
        -((-(x as i64)) / 1000) as i32
    }
}

/// The lines that list the cores: raw, each name and frequency in kHz;
/// else the model name, then each core's name and frequency in MHz.
pub open spec fn cpus_text(cpus: Seq<CPU>, name: Seq<char>, raw: bool) -> Seq<char>
    decreases cpus.len(),
{
    if cpus.len() == 0 {
        if raw {
            Seq::<char>::empty()
        } else {
            "Name: "@ + name + "\n"@
        }
    } else {
        let c = cpus.last();
        cpus_text(cpus.drop_last(), name, raw) + if raw {
            c.name@ + " "@ + dec_int(c.cur_freq as int) + "\n"@
        } else {
            c.name@ + ":\t"@ + dec_int(trunc_div(c.cur_freq as int, 1000)) + " MHz\n"@
        }
    }
}

/// The text that lists the cores.
pub fn print_cpus(cpus: &Vec<CPU>, name: &str, raw: bool) -> (s: String)
    ensures
        s@ == cpus_text(cpus@, name@, raw),
{
    let mut s = if raw {
        String::new()
    } else {
        let a = concat("Name: ", name);
        concat(a.as_str(), "\n")
    };
    let mut i: usize = 0;
    assert(cpus@.take(0) =~= Seq::<CPU>::empty());
    while i < cpus.len()
        invariant
            i <= cpus.len(),
            s@ == cpus_text(cpus@.take(i as int), name@, raw),
        decreases cpus.len() - i,
    {
        let c = &cpus[i];
        let line = if raw {
            let a = concat(c.name.as_str(), " ");
            let b = concat(a.as_str(), fmt_i64(c.cur_freq as i64).as_str());
            concat(b.as_str(), "\n")
        } else {
            let a = concat(c.name.as_str(), ":\t");
            let b = concat(a.as_str(), fmt_i64(in_thousands(c.cur_freq) as i64).as_str());
            concat(b.as_str(), " MHz\n")
        };
        assert(cpus@.take(i + 1).drop_last() =~= cpus@.take(i as int));
        s = concat(s.as_str(), line.as_str());
        i = i + 1;
    }
    assert(cpus@.take(cpus.len() as int) =~= cpus@);
    s
}

/// The row at which the turbo indicator is drawn: one higher when the
/// terminal is wide enough for the title on one line.
pub fn turbo_y_pos(term_width: usize) -> (y: usize)
    ensures
        y == if term_width > 94 {
            7usize
        } else {
            8usize
        },
{
    let mut turbo_y_pos: usize = 8;
    let title_width: usize = 94;
    if term_width > title_width {
        turbo_y_pos = 7;
    }
    turbo_y_pos
}

/// The line that says whether turbo is enabled, indented when the
/// animation is drawn beside it.
pub fn turbo_status_line(turbo: bool, animation: bool) -> (s: String)
    ensures
        s@ == (if animation {
            "  Turbo: "@
        } else {
            "Turbo: "@
        }) + (if turbo {
            "enabled"@
        } else {
            "disabled"@
        }) + "\n"@,
{
    let enabled_message = if turbo {
        "enabled"
    } else {
        "disabled"
    };
    let a = if animation {
        concat("  Turbo: ", enabled_message)
    } else {
        concat("Turbo: ", enabled_message)
    };
    concat(a.as_str(), "\n")
}

// ---------------------------------------------------------------------
// The monitor's table
// ---------------------------------------------------------------------

/// The color a cell of the monitor is painted in.
#[derive(PartialEq, Eq, Structural, Clone, Copy, Debug)]
pub enum Paint {
    Red,
    Yellow,
    White,
    Green,
}

/// The color of a core temperature, in whole degrees: hot above 60, warm
/// above 40, white for a reading of 0 or 1 (no sensor), else green.
pub open spec fn temp_paint(degrees: int) -> Paint {
    if degrees > 60 {
        Paint::Red
    } else if degrees > 40 {
        Paint::Yellow
    } else if degrees == 1 || degrees == 0 {
        Paint::White
    } else {
        Paint::Green
    }
}

impl CPU {
    /// The temperature cell of the core's row: whole degrees and `C`, with
    /// a `*` for a reading of 0 or 1, and its color.
    pub fn temp_cell(&self) -> (cell: (String, Paint))
        ensures
            ({
                let d = trunc_div(self.cur_temp as int, 1000);
                &&& cell.1 == temp_paint(d)
                &&& cell.0@ == dec_int(d) + if d == 1 || d == 0 {
                    "C*"@
                } else {
                    "C"@
                }
            }),
    {
        let d = in_thousands(self.cur_temp);
        let t = fmt_i64(d as i64);
        if d > 60 {
            (concat(t.as_str(), "C"), Paint::Red)
        } else if d > 40 {
            (concat(t.as_str(), "C"), Paint::Yellow)
        } else if d == 1 || d == 0 {
            (concat(t.as_str(), "C*"), Paint::White)
        } else {
            (concat(t.as_str(), "C"), Paint::Green)
        }
    }

    /// The current frequency cell of the core's row (painted green).
    pub fn freq_cell(&self) -> (s: String)
        ensures
            s@ == dec_int(trunc_div(self.cur_freq as int, 1000)) + "MHz"@,
    {
        concat(fmt_i64(in_thousands(self.cur_freq) as i64).as_str(), "MHz")
    }

    /// The core's row of the monitor's table (its `Display`), from its
    /// painted name, frequency, temperature and usage cells.
    pub fn row(&self, name: &str, freq: &str, temp: &str, usage: &str) -> (s: String)
        ensures
            s@ == name@ + ": "@ + dec_int(trunc_div(self.max_freq as int, 1000)) + "MHz\t"@
                + dec_int(trunc_div(self.min_freq as int, 1000)) + "MHz\t"@ + freq@ + "\t"@
                + temp@ + "\t"@ + usage@ + "\t"@ + self.gov@ + "\n"@,
    {
        let a = concat(name, ": ");
        let b = concat(a.as_str(), fmt_i64(in_thousands(self.max_freq) as i64).as_str());
        let c = concat(b.as_str(), "MHz\t");
        let d = concat(c.as_str(), fmt_i64(in_thousands(self.min_freq) as i64).as_str());
        let e = concat(d.as_str(), "MHz\t");
        let f = concat(e.as_str(), freq);
        let g = concat(f.as_str(), "\t");
        let h = concat(g.as_str(), temp);
        let i = concat(h.as_str(), "\t");
        let j = concat(i.as_str(), usage);
        let k = concat(j.as_str(), "\t");
        let l = concat(k.as_str(), self.gov.as_str());
        let r = concat(l.as_str(), "\n");
        assert(r@ =~= name@ + ": "@ + dec_int(trunc_div(self.max_freq as int, 1000)) + "MHz\t"@
            + dec_int(trunc_div(self.min_freq as int, 1000)) + "MHz\t"@ + freq@ + "\t"@ + temp@
            + "\t"@ + usage@ + "\t"@ + self.gov@ + "\n"@);
        r
    }
}

/// The battery cell of the monitor: the charge in percent, green while
/// charging and red otherwise, or `N/A` unpainted on a machine without a
/// battery.
pub fn battery_status_cell(has_battery: bool, capacity: i8, status: BatteryStatus) -> (cell: (
    String,
    Option<Paint>,
))
    ensures
        has_battery ==> cell.0@ == dec_int(capacity as int) + "%"@ && cell.1 == Some(
            if status == BatteryStatus::Charging {
                Paint::Green
            } else {
                Paint::Red
            },
        ),
        !has_battery ==> cell.0@ == "N/A"@ && cell.1 is None,
{
    if has_battery {
        let t = concat(fmt_i64(capacity as i64).as_str(), "%");
        if status == BatteryStatus::Charging {
            (t, Some(Paint::Green))
        } else {
            (t, Some(Paint::Red))
        }
    } else {
        (String::from_str("N/A"), None)
    }
}

/// The line of the monitor's battery status, from its painted cell.
pub fn battery_status_line(cell: &str) -> (s: String)
    ensures
        s@ == "Battery: "@ + cell@,
{
    concat("Battery: ", cell)
}

/// The frames of the turbo animation, in order.
pub open spec fn turbo_frame(i: int) -> char {
    if i == 0 {
        '◷'
    } else if i == 1 {
        '◶'
    } else if i == 2 {
        '◵'
    } else {
        '◴'
    }
}

/// The turbo animation: the row it is drawn at (below the cores' rows) and
/// the number of frames drawn, one each 100 ms of the delay.
pub fn turbo_animation_plan(cores: usize, y_pos: usize, delay: u64) -> (plan: (usize, u64))
    requires
        cores + y_pos <= usize::MAX,
    ensures
        plan.0 == cores + y_pos,
        plan.1 == delay / 100,
{
    (cores + y_pos, delay / 100)
}

/// The frame drawn at a step of the turbo animation: the four frames in
/// turn.
pub fn turbo_animation_frame(step: u64) -> (c: char)
    ensures
        c == turbo_frame((step % 4) as int),
{
    let i = step % 4;
    if i == 0 {
        '◷'
    } else if i == 1 {
        '◶'
    } else if i == 2 {
        '◵'
    } else {
        '◴'
    }
}

} // verus!
