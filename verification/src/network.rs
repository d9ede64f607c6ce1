//! The line protocol between the daemon and its clients: a packet is a type
//! number and its fields, separated by `|`, one packet per line.
use vstd::prelude::*;

use crate::text::char_views;
use crate::text::chars_of;
use crate::text::concat;
use crate::text::dec_int;
use crate::text::dec_nat;
use crate::text::free_of;
use crate::text::lemma_split_free;
use crate::text::lemma_split_join;
use crate::text::fmt_u64;
use crate::text::lemma_dec_nat_digits;
use crate::text::lemma_parse_dec_int;
use crate::text::lemma_split_char_nonempty;
use crate::text::parse_bool;
use crate::text::parse_bool_str;
use crate::text::parse_u32;
use crate::text::parse_u32_str;
use crate::text::push_char;
use crate::text::split_char;
use crate::text::split_chars;
use crate::text::string_of;
use crate::text::views;

verus! {

/// A message between the daemon and a client. Log entries travel encoded,
/// one JSON text each; the program that prints them decodes them.
#[derive(PartialEq, Eq, Debug)]
pub enum Packet {
    Hello(String),
    HelloResponse(String, u32),
    DaemonDisableRequest(),
    DaemonDisableResponse(bool),
    DaemonEnableRequest(),
    DaemonEnableResponse(bool),
    DaemonStatusRequest(),
    DaemonStatusResponse(bool),
    DaemonLogRequest(),
    DaemonLogResponse(Vec<String>),
    DaemonLogEvent(String),
    Unknown,
}

/// A packet, its texts taken as character sequences.
pub enum PacketView {
    Hello(Seq<char>),
    HelloResponse(Seq<char>, u32),
    DaemonDisableRequest,
    DaemonDisableResponse(bool),
    DaemonEnableRequest,
    DaemonEnableResponse(bool),
    DaemonStatusRequest,
    DaemonStatusResponse(bool),
    DaemonLogRequest,
    DaemonLogResponse(Seq<Seq<char>>),
    DaemonLogEvent(Seq<char>),
    Unknown,
}

impl View for Packet {
    type V = PacketView;

    open spec fn view(&self) -> PacketView {
        match self {
            Packet::Hello(d) => PacketView::Hello(d@),
            Packet::HelloResponse(d, v) => PacketView::HelloResponse(d@, *v),
            Packet::DaemonDisableRequest() => PacketView::DaemonDisableRequest,
            Packet::DaemonDisableResponse(b) => PacketView::DaemonDisableResponse(*b),
            Packet::DaemonEnableRequest() => PacketView::DaemonEnableRequest,
            Packet::DaemonEnableResponse(b) => PacketView::DaemonEnableResponse(*b),
            Packet::DaemonStatusRequest() => PacketView::DaemonStatusRequest,
            Packet::DaemonStatusResponse(b) => PacketView::DaemonStatusResponse(*b),
            Packet::DaemonLogRequest() => PacketView::DaemonLogRequest,
            Packet::DaemonLogResponse(l) => PacketView::DaemonLogResponse(views(l@)),
            Packet::DaemonLogEvent(l) => PacketView::DaemonLogEvent(l@),
            Packet::Unknown => PacketView::Unknown,
        }
    }
}

/// A line that is no packet.
#[derive(Debug)]
pub struct PacketParseError;

impl PacketParseError {
    /// The text of the error (its `Display`).
    pub fn message(&self) -> (s: &'static str)
        ensures
            s@ == "Packet parse error occured"@,
    {
        "Packet parse error occured"
    }
}

/// The text of a boolean field.
pub open spec fn bool_text(b: bool) -> Seq<char> {
    if b {
        seq!['t', 'r', 'u', 'e']
    } else {
        seq!['f', 'a', 'l', 's', 'e']
    }
}

/// Whether a field is the one-digit type number `c`.
pub open spec fn is_tag(t: Seq<char>, c: char) -> bool {
    t.len() == 1 && t[0] == c
}

/// Whether a field is the type number `10`.
pub open spec fn is_tag10(t: Seq<char>) -> bool {
    t.len() == 2 && t[0] == '1' && t[1] == '0'
}

/// The packet that a line holds, or `None` for a line that is no packet.
/// The fields are the pieces between the `|`s; the first is the type
/// number; fields beyond those a type needs are ignored.
pub open spec fn parse_packet_spec(line: Seq<char>) -> Option<PacketView> {
    let f = split_char(line, '|');
    let t = f[0];
    if is_tag(t, '0') {
        if f.len() >= 2 {
            Some(PacketView::Hello(f[1]))
        } else {
            None
        }
    } else if is_tag(t, '1') {
        if f.len() >= 3 && parse_u32(f[2]) is Some {
            Some(PacketView::HelloResponse(f[1], parse_u32(f[2])->0 as u32))
        } else {
            None
        }
    } else if is_tag(t, '2') {
        Some(PacketView::DaemonDisableRequest)
    } else if is_tag(t, '3') {
        if f.len() >= 2 && parse_bool(f[1]) is Some {
            Some(PacketView::DaemonDisableResponse(parse_bool(f[1])->0))
        } else {
            None
        }
    } else if is_tag(t, '4') {
        Some(PacketView::DaemonEnableRequest)
    } else if is_tag(t, '5') {
        if f.len() >= 2 && parse_bool(f[1]) is Some {
            Some(PacketView::DaemonEnableResponse(parse_bool(f[1])->0))
        } else {
            None
        }
    } else if is_tag(t, '6') {
        Some(PacketView::DaemonStatusRequest)
    } else if is_tag(t, '7') {
        if f.len() >= 2 && parse_bool(f[1]) is Some {
            Some(PacketView::DaemonStatusResponse(parse_bool(f[1])->0))
        } else {
            None
        }
    } else if is_tag(t, '8') {
        Some(PacketView::DaemonLogRequest)
    } else if is_tag(t, '9') {
        Some(PacketView::DaemonLogResponse(f.skip(1)))
    } else if is_tag10(t) {
        if f.len() >= 2 {
            Some(PacketView::DaemonLogEvent(f[1]))
        } else {
            None
        }
    } else {
        None
    }
}

/// The texts joined, with nothing between them.
pub open spec fn concat_all(items: Seq<Seq<char>>) -> Seq<char>
    decreases items.len(),
{
    if items.len() == 0 {
        Seq::<char>::empty()
    } else {
        concat_all(items.drop_last()) + items.last()
    }
}

/// The line that carries a packet, before its newline.
pub open spec fn wire(p: PacketView) -> Seq<char> {
    match p {
        PacketView::Hello(d) => seq!['0', '|'] + d,
        PacketView::HelloResponse(d, v) => seq!['1', '|'] + d + seq!['|'] + dec_nat(v as nat),
        PacketView::DaemonDisableRequest => seq!['2'],
        PacketView::DaemonDisableResponse(b) => seq!['3', '|'] + bool_text(b),
        PacketView::DaemonEnableRequest => seq!['4'],
        PacketView::DaemonEnableResponse(b) => seq!['5', '|'] + bool_text(b),
        PacketView::DaemonStatusRequest => seq!['6'],
        PacketView::DaemonStatusResponse(b) => seq!['7', '|'] + bool_text(b),
        PacketView::DaemonLogRequest => seq!['8'],
        PacketView::DaemonLogResponse(items) => seq!['9', '|'] + concat_all(items),
        PacketView::DaemonLogEvent(l) => seq!['1', '0', '|'] + l,
        PacketView::Unknown => Seq::<char>::empty(),
    }
}

/// Parses a line (without its newline) into a packet.
pub fn parse_packet(packet: &str) -> (r: Result<Packet, PacketParseError>)
    ensures
        match r {
            Ok(p) => parse_packet_spec(packet@) == Some(p@),
            Err(_) => parse_packet_spec(packet@) is None,
        },
{
    let f = split_chars(&chars_of(packet), '|');
    let ghost fv = char_views(f@);
    proof {
        lemma_split_char_nonempty(packet@, '|');
    }
    assert(fv == split_char(packet@, '|'));
    assert(fv[0] == f@[0]@);
    let t = &f[0];
    if has_tag(t, '0') {
        if f.len() >= 2 {
            assert(fv[1] == f@[1]@);
            Ok(Packet::Hello(string_of(&f[1])))
        } else {
            Err(PacketParseError)
        }
    } else if has_tag(t, '1') {
        if f.len() >= 3 {
            assert(fv[1] == f@[1]@);
            assert(fv[2] == f@[2]@);
            let s2 = string_of(&f[2]);
            match parse_u32_str(s2.as_str()) {
                Some(v) => Ok(Packet::HelloResponse(string_of(&f[1]), v)),
                None => Err(PacketParseError),
            }
        } else {
            Err(PacketParseError)
        }
    } else if has_tag(t, '2') {
        Ok(Packet::DaemonDisableRequest())
    } else if has_tag(t, '3') {
        match bool_field(&f) {
            Some(b) => Ok(Packet::DaemonDisableResponse(b)),
            None => Err(PacketParseError),
        }
    } else if has_tag(t, '4') {
        Ok(Packet::DaemonEnableRequest())
    } else if has_tag(t, '5') {
        match bool_field(&f) {
            Some(b) => Ok(Packet::DaemonEnableResponse(b)),
            None => Err(PacketParseError),
        }
    } else if has_tag(t, '6') {
        Ok(Packet::DaemonStatusRequest())
    } else if has_tag(t, '7') {
        match bool_field(&f) {
            Some(b) => Ok(Packet::DaemonStatusResponse(b)),
            None => Err(PacketParseError),
        }
    } else if has_tag(t, '8') {
        Ok(Packet::DaemonLogRequest())
    } else if has_tag(t, '9') {
        let mut items: Vec<String> = Vec::new();
        let mut i: usize = 1;
        while i < f.len()
            invariant
                1 <= i <= f.len(),
                fv == char_views(f@),
                views(items@) == fv.subrange(1, i as int),
            decreases f.len() - i,
        {
            let s = string_of(&f[i]);
            let ghost before = items@;
            items.push(s);
            assert(views(items@) =~= views(before).push(s@));
            assert(fv.subrange(1, i + 1) =~= fv.subrange(1, i as int).push(fv[i as int]));
            i = i + 1;
        }
        assert(fv.subrange(1, f.len() as int) =~= fv.skip(1));
        Ok(Packet::DaemonLogResponse(items))
    } else if has_tag10(t) {
        if f.len() >= 2 {
            assert(fv[1] == f@[1]@);
            Ok(Packet::DaemonLogEvent(string_of(&f[1])))
        } else {
            Err(PacketParseError)
        }
    } else {
        Err(PacketParseError)
    }
}

fn has_tag(t: &Vec<char>, c: char) -> (r: bool)
    ensures
        r == is_tag(t@, c),
{
    t.len() == 1 && t[0] == c
}

fn has_tag10(t: &Vec<char>) -> (r: bool)
    ensures
        r == is_tag10(t@),
{
    t.len() == 2 && t[0] == '1' && t[1] == '0'
}

/// The boolean in the second field, if there is one.
fn bool_field(f: &Vec<Vec<char>>) -> (r: Option<bool>)
    ensures
        match r {
            Some(b) => char_views(f@).len() >= 2 && parse_bool(char_views(f@)[1]) == Some(b),
            None => !(char_views(f@).len() >= 2 && parse_bool(char_views(f@)[1]) is Some),
        },
{
    if f.len() >= 2 {
        assert(char_views(f@)[1] == f@[1]@);
        let s = string_of(&f[1]);
        parse_bool_str(s.as_str())
    } else {
        None
    }
}

fn push_str(s: &mut String, t: &str)
    ensures
        final(s)@ == old(s)@ + t@,
{
    let r = concat(s.as_str(), t);
    *s = r;
}

fn bool_string(b: bool) -> (s: String)
    ensures
        s@ == bool_text(b),
{
    let mut s = String::new();
    if b {
        push_char(&mut s, 't');
        push_char(&mut s, 'r');
        push_char(&mut s, 'u');
        push_char(&mut s, 'e');
    } else {
        push_char(&mut s, 'f');
        push_char(&mut s, 'a');
        push_char(&mut s, 'l');
        push_char(&mut s, 's');
        push_char(&mut s, 'e');
    }
    assert(s@ =~= bool_text(b));
    s
}

/// A type number followed by `|` and a field.
fn tagged(tag: char, field: &str) -> (s: String)
    ensures
        s@ == seq![tag, '|'] + field@,
{
    let mut s = String::new();
    push_char(&mut s, tag);
    push_char(&mut s, '|');
    push_str(&mut s, field);
    assert(s@ =~= seq![tag, '|'] + field@);
    s
}

fn single(tag: char) -> (s: String)
    ensures
        s@ == seq![tag],
{
    let mut s = String::new();
    push_char(&mut s, tag);
    assert(s@ =~= seq![tag]);
    s
}

impl Packet {
    /// The line that carries the packet, with its newline (the packet's
    /// `Display`). Log events are never sent by this side.
    pub fn render(&self) -> (s: String)
        requires
            !(self is DaemonLogEvent),
        ensures
            s@ == wire(self@).push('\n'),
    {
        let mut s = match self {
            Packet::Hello(d) => tagged('0', d.as_str()),
            Packet::HelloResponse(d, v) => {
                let mut s = tagged('1', d.as_str());
                push_char(&mut s, '|');
                let n = fmt_u64(*v as u64);
                push_str(&mut s, n.as_str());
                assert(s@ =~= wire(self@));
                s
            },
            Packet::DaemonDisableRequest() => single('2'),
            Packet::DaemonDisableResponse(b) => tagged('3', bool_string(*b).as_str()),
            Packet::DaemonEnableRequest() => single('4'),
            Packet::DaemonEnableResponse(b) => tagged('5', bool_string(*b).as_str()),
            Packet::DaemonStatusRequest() => single('6'),
            Packet::DaemonStatusResponse(b) => tagged('7', bool_string(*b).as_str()),
            Packet::DaemonLogRequest() => single('8'),
            Packet::DaemonLogResponse(items) => {
                let mut s = tagged('9', "");
                assert(""@.len() == 0) by {
                    reveal_strlit("");
                }
                assert(s@ =~= seq!['9', '|']);
                let mut i: usize = 0;
                assert(views(items@).take(0) =~= Seq::<Seq<char>>::empty());
                while i < items.len()
                    invariant
                        i <= items.len(),
                        s@ == seq!['9', '|'] + concat_all(views(items@).take(i as int)),
                    decreases items.len() - i,
                {
                    push_str(&mut s, items[i].as_str());
                    assert(views(items@).take(i + 1).drop_last() =~= views(items@).take(
                        i as int,
                    ));
                    assert(s@ =~= seq!['9', '|'] + concat_all(views(items@).take(i + 1)));
                    i = i + 1;
                }
                assert(views(items@).take(items.len() as int) =~= views(items@));
                s
            },
            Packet::DaemonLogEvent(_) => String::new(),
            Packet::Unknown => String::new(),
        };
        push_char(&mut s, '\n');
        s
    }
}

// ---------------------------------------------------------------------
// The protocol's round trip
// ---------------------------------------------------------------------

/// A packet that its line gives back: not a log event nor `Unknown`, a log
/// response only with a single entry (entries are joined with nothing
/// between them), and with no `|` in its text fields.
pub open spec fn round_trips(p: PacketView) -> bool {
    match p {
        PacketView::Hello(d) => free_of(d, '|'),
        PacketView::HelloResponse(d, _) => free_of(d, '|'),
        PacketView::DaemonLogResponse(items) => items.len() == 1 && free_of(items[0], '|'),
        PacketView::DaemonLogEvent(_) => false,
        PacketView::Unknown => false,
        _ => true,
    }
}

proof fn lemma_dec_free(n: nat)
    ensures
        free_of(dec_nat(n), '|'),
{
    lemma_dec_nat_digits(n);
    assert forall|i: int| 0 <= i < dec_nat(n).len() implies dec_nat(n)[i] != '|' by {
        assert(crate::text::is_digit(dec_nat(n)[i]));
    }
}

/// What the daemon or a client sends is read back as the same packet: for
/// every packet that round-trips, parsing its line (without the newline)
/// gives it back.
#[verifier::rlimit(40)]
pub proof fn law_packets_read_back(p: PacketView)
    requires
        round_trips(p),
    ensures
        parse_packet_spec(wire(p)) == Some(p),
{
    match p {
        PacketView::Hello(d) => {
            assert(wire(p) =~= seq!['0'] + seq!['|'] + d);
            lemma_split_join(seq!['0'], d, '|');
            lemma_split_free(seq!['0'], '|');
            lemma_split_free(d, '|');
            assert(split_char(wire(p), '|') =~= seq![seq!['0'], d]);
            assert(parse_packet_spec(wire(p)) == Some(p));
        },
        PacketView::HelloResponse(d, v) => {
            let n = dec_nat(v as nat);
            assert(wire(p) =~= seq!['1'] + seq!['|'] + (d + seq!['|'] + n));
            lemma_split_join(seq!['1'], d + seq!['|'] + n, '|');
            lemma_split_join(d, n, '|');
            lemma_split_free(seq!['1'], '|');
            lemma_split_free(d, '|');
            lemma_dec_free(v as nat);
            lemma_split_free(n, '|');
            lemma_parse_dec_int(v as int, false, 0, u32::MAX as int);
            assert(crate::text::dec_int(v as int) == n);
            let f = split_char(wire(p), '|');
            assert(f =~= seq![seq!['1'], d, n]);
            assert(parse_packet_spec(wire(p)) == Some(p));
        },
        PacketView::DaemonDisableResponse(b) => {
            lemma_bool_field(seq!['3'], b);
            assert(wire(p) =~= seq!['3'] + seq!['|'] + bool_text(b));
            assert(parse_packet_spec(wire(p)) == Some(p));
        },
        PacketView::DaemonEnableResponse(b) => {
            lemma_bool_field(seq!['5'], b);
            assert(wire(p) =~= seq!['5'] + seq!['|'] + bool_text(b));
            assert(parse_packet_spec(wire(p)) == Some(p));
        },
        PacketView::DaemonStatusResponse(b) => {
            lemma_bool_field(seq!['7'], b);
            assert(wire(p) =~= seq!['7'] + seq!['|'] + bool_text(b));
            assert(parse_packet_spec(wire(p)) == Some(p));
        },
        PacketView::DaemonDisableRequest => {
            lemma_split_free(seq!['2'], '|');
            assert(parse_packet_spec(wire(p)) == Some(p));
        },
        PacketView::DaemonEnableRequest => {
            lemma_split_free(seq!['4'], '|');
            assert(parse_packet_spec(wire(p)) == Some(p));
        },
        PacketView::DaemonStatusRequest => {
            lemma_split_free(seq!['6'], '|');
            assert(parse_packet_spec(wire(p)) == Some(p));
        },
        PacketView::DaemonLogRequest => {
            lemma_split_free(seq!['8'], '|');
            assert(parse_packet_spec(wire(p)) == Some(p));
        },
        PacketView::DaemonLogResponse(items) => {
            lemma_parse_wire_log_response(items);
        },
        _ => {},
    }
}

proof fn lemma_parse_wire_log_response(items: Seq<Seq<char>>)
    requires
        items.len() == 1,
        free_of(items[0], '|'),
    ensures
        parse_packet_spec(wire(PacketView::DaemonLogResponse(items))) == Some(
            PacketView::DaemonLogResponse(items),
        ),
{
    let p = PacketView::DaemonLogResponse(items);
    let x = items[0];
    assert(items.drop_last() =~= Seq::<Seq<char>>::empty());
    assert(concat_all(items.drop_last()) =~= Seq::<char>::empty());
    assert(concat_all(items) =~= x);
    assert(wire(p) =~= seq!['9'] + seq!['|'] + x);
    lemma_split_join(seq!['9'], x, '|');
    lemma_split_free(seq!['9'], '|');
    lemma_split_free(x, '|');
    let f = split_char(wire(p), '|');
    assert(f =~= seq![seq!['9'], x]);
    assert(f.skip(1) =~= items);
}

proof fn lemma_bool_field(tag: Seq<char>, b: bool)
    requires
        tag.len() == 1,
        tag[0] != '|',
    ensures
        split_char(tag + seq!['|'] + bool_text(b), '|') == seq![tag, bool_text(b)],
        parse_bool(bool_text(b)) == Some(b),
{
    lemma_split_join(tag, bool_text(b), '|');
    lemma_split_free(tag, '|');
    lemma_split_free(bool_text(b), '|');
    assert(seq![tag] + seq![bool_text(b)] =~= seq![tag, bool_text(b)]);
    assert(tag + seq!['|'] + bool_text(b) =~= seq![tag[0], '|'] + bool_text(b));
}

/// What a monitor hooked to a daemon does with a line the daemon sent.
#[derive(Debug)]
pub enum HookStep {
    /// Add these log entries (each an encoded entry) to the monitor's log.
    Append(Vec<String>),
    /// Log this error.
    Report(&'static str),
}

/// What a monitor hooked to a daemon does with a line the daemon sent: the
/// entries of a log response or of a log event are added to its log; any
/// other packet, or a line that is no packet, is reported as an error.
pub fn hook_step(line: &str) -> (step: HookStep)
    ensures
        match parse_packet_spec(line@) {
            Some(PacketView::DaemonLogResponse(items)) => step matches HookStep::Append(v)
                && views(v@) == items,
            Some(PacketView::DaemonLogEvent(item)) => step matches HookStep::Append(v) && views(
                v@,
            ) == seq![item],
            Some(_) => step matches HookStep::Report(m) && m@
                == "Unexpected response packet from daemon? Incorrect protocol version?"@,
            None => step matches HookStep::Report(m) && m@
                == "Failed to parse packet from daemon? Incorrect protocol version?"@,
        },
{
    match parse_packet(line) {
        Ok(Packet::DaemonLogResponse(items)) => HookStep::Append(items),
        Ok(Packet::DaemonLogEvent(item)) => {
            let mut v: Vec<String> = Vec::new();
            v.push(item);
            assert(views(v@) =~= seq![v@[0]@]);
            HookStep::Append(v)
        },
        Ok(_) => HookStep::Report("Unexpected response packet from daemon? Incorrect protocol version?"),
        Err(_) => HookStep::Report("Failed to parse packet from daemon? Incorrect protocol version?"),
    }
}

} // verus!
