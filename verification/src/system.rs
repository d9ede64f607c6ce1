//! What the kernel reports of the CPUs, read from its text files: the model
//! name, turbo, the available governors, the cores and their readings.
use vstd::prelude::*;

use crate::cpu::CPU;
use crate::error::Error;
use crate::text::after_last_pair;
use crate::text::after_last_pair_chars;
use crate::text::char_views;
use crate::text::chars_of;
use crate::text::contains;
use crate::text::contains_chars;
use crate::text::has_prefix;
use crate::text::is_digit;
use crate::text::parse_i32;
use crate::text::parse_i8;
use crate::text::parse_int_chars;
use crate::text::parse_i8_str;
use crate::text::pop_chars;
use crate::text::pop_last;
use crate::text::slice_chars;
use crate::text::split_char;
use crate::text::split_chars;
use crate::text::starts_with;
use crate::text::string_of;
use crate::text::views;

verus! {

// ---------------------------------------------------------------------
// sysfs values
// ---------------------------------------------------------------------

/// The integer in a sysfs file's text, its trailing newline removed; `None`
/// where the text is no integer (the reader panics there).
pub fn sysfs_int(text: &str) -> (r: Option<i32>)
    ensures
        match r {
            Some(v) => parse_i32(pop_last(text@)) == Some(v as int),
            None => parse_i32(pop_last(text@)) is None,
        },
{
    let v = pop_chars(&chars_of(text));
    match parse_int_chars(&v, true, -2147483648, 2147483647) {
        Some(x) => Some(x as i32),
        None => None,
    }
}

/// The small integer in a sysfs file's text, its trailing newline removed.
pub fn sysfs_i8(text: &str) -> (r: Option<i8>)
    ensures
        match r {
            Some(v) => parse_i8(pop_last(text@)) == Some(v as int),
            None => parse_i8(pop_last(text@)) is None,
        },
{
    let v = pop_chars(&chars_of(text));
    match parse_int_chars(&v, true, -128, 127) {
        Some(x) => Some(x as i8),
        None => None,
    }
}

/// A sysfs file's text without its trailing newline.
pub fn sysfs_str(text: &str) -> (r: String)
    ensures
        r@ == pop_last(text@),
{
    string_of(&pop_chars(&chars_of(text)))
}

// ---------------------------------------------------------------------
// /proc/cpuinfo
// ---------------------------------------------------------------------

/// The first of `lines` that begins with `p`.
pub open spec fn find_prefixed(lines: Seq<Seq<char>>, p: Seq<char>) -> Option<Seq<char>>
    decreases lines.len(),
{
    if lines.len() == 0 {
        None
    } else if has_prefix(lines[0], p) {
        Some(lines[0])
    } else {
        find_prefixed(lines.drop_first(), p)
    }
}

/// The CPU model that `/proc/cpuinfo` names: on the first line that begins
/// with `model name` and a tab, what follows the last `": "`.
pub open spec fn cpu_model_name(info: Seq<char>) -> Option<Seq<char>> {
    match find_prefixed(split_char(info, '\n'), "model name\t"@) {
        Some(line) => Some(after_last_pair(line, ':', ' ')),
        None => None,
    }
}

/// The CPU model named in the text of `/proc/cpuinfo`; `Error::Unknown` if
/// no line names it.
pub fn get_name_from_cpu_info(cpu_info: String) -> (r: Result<String, Error>)
    ensures
        match r {
            Ok(name) => cpu_model_name(cpu_info@) == Some(name@),
            Err(e) => cpu_model_name(cpu_info@) is None && e is Unknown,
        },
{
    let lines = split_chars(&chars_of(cpu_info.as_str()), '\n');
    let prefix = chars_of("model name\t");
    let ghost all = char_views(lines@);
    let mut i: usize = 0;
    assert(all.skip(0) =~= all);
    while i < lines.len()
        invariant
            i <= lines.len(),
            all == char_views(lines@),
            all == split_char(cpu_info@, '\n'),
            prefix@ == "model name\t"@,
            find_prefixed(all, prefix@) == find_prefixed(all.skip(i as int), prefix@),
        decreases lines.len() - i,
    {
        assert(all.skip(i as int)[0] == lines@[i as int]@);
        if starts_with(&lines[i], &prefix) {
            let name = after_last_pair_chars(&lines[i], ':', ' ');
            return Ok(string_of(&name));
        }
        assert(all.skip(i as int).drop_first() =~= all.skip(i + 1));
        i = i + 1;
    }
    assert(all.skip(i as int) =~= Seq::<Seq<char>>::empty());
    Err(Error::Unknown)
}

// ---------------------------------------------------------------------
// Turbo and governors
// ---------------------------------------------------------------------

/// Whether the `no_turbo` file's text says turbo is enabled: the text
/// without its newline is an `i8` that is zero. The text is left without its
/// newline.
pub fn interpret_turbo(is_turbo: &mut String) -> (r: Result<bool, Error>)
    requires
        parse_i8(pop_last(old(is_turbo)@)) is Some,
    ensures
        final(is_turbo)@ == pop_last(old(is_turbo)@),
        r matches Ok(t) && t == (parse_i8(pop_last(old(is_turbo)@)) == Some(0int)),
{
    let popped = pop_chars(&chars_of(is_turbo.as_str()));
    *is_turbo = string_of(&popped);
    match parse_i8_str(is_turbo.as_str()) {
        Some(a) => Ok(a == 0),
        None => Ok(false),
    }
}

/// The governors named in the `scaling_available_governors` file's text:
/// the text without its newline, split at each space. The text is left
/// without its newline.
pub fn interpret_govs(governors_string: &mut String) -> (r: Result<Vec<String>, Error>)
    ensures
        final(governors_string)@ == pop_last(old(governors_string)@),
        r matches Ok(govs) && views(govs@) == split_char(pop_last(old(governors_string)@), ' '),
{
    let popped = pop_chars(&chars_of(governors_string.as_str()));
    *governors_string = string_of(&popped);
    let pieces = split_chars(&popped, ' ');
    let mut govs: Vec<String> = Vec::new();
    let mut i: usize = 0;
    while i < pieces.len()
        invariant
            i <= pieces.len(),
            views(govs@) == char_views(pieces@).take(i as int),
        decreases pieces.len() - i,
    {
        let g = string_of(&pieces[i]);
        let ghost before = govs@;
        govs.push(g);
        assert(views(govs@) =~= views(before).push(g@));
        assert(char_views(pieces@).take(i + 1) =~= char_views(pieces@).take(i as int).push(
            pieces@[i as int]@,
        ));
        i = i + 1;
    }
    assert(char_views(pieces@).take(pieces.len() as int) =~= char_views(pieces@));
    Ok(govs)
}

/// The CPU model named in the text of `/proc/cpuinfo`.
pub fn check_cpu_name(cpu_info: String) -> (r: Result<String, Error>)
    ensures
        match r {
            Ok(name) => cpu_model_name(cpu_info@) == Some(name@),
            Err(e) => cpu_model_name(cpu_info@) is None && e is Unknown,
        },
{
    let name = get_name_from_cpu_info(cpu_info)?;
    Ok(name)
}

/// Whether turbo is enabled (in the BIOS), from the outcome of reading the
/// `intel_pstate/no_turbo` file: a read error is passed on.
pub fn check_turbo_enabled(turbo_file: Result<String, Error>) -> (r: Result<bool, Error>)
    requires
        turbo_file matches Ok(s) ==> parse_i8(pop_last(s@)) is Some,
    ensures
        match turbo_file {
            Ok(s) => r matches Ok(t) && t == (parse_i8(pop_last(s@)) == Some(0int)),
            Err(e) => r matches Err(e2) && e2 == e,
        },
{
    match turbo_file {
        Ok(mut turbo_string) => interpret_turbo(&mut turbo_string),
        Err(e) => Err(e),
    }
}

/// The governors available for the cores, from the outcome of reading the
/// `scaling_available_governors` file: a read error is passed on.
pub fn check_available_governors(govs_file: Result<String, Error>) -> (r: Result<Vec<String>, Error>)
    ensures
        match govs_file {
            Ok(s) => r matches Ok(govs) && views(govs@) == split_char(pop_last(s@), ' '),
            Err(e) => r matches Err(e2) && e2 == e,
        },
{
    match govs_file {
        Ok(mut govs_string) => interpret_govs(&mut govs_string),
        Err(e) => Err(e),
    }
}

// ---------------------------------------------------------------------
// The cores
// ---------------------------------------------------------------------

/// Whether a character is numeric (`char::is_numeric`: the Unicode number
/// categories).
pub uninterp spec fn is_numeric(c: char) -> bool;

/// `char::is_numeric`. Its result is named `is_numeric`; among ASCII
/// characters exactly the digits are numeric.
#[verifier::external_body]
fn char_is_numeric(c: char) -> (r: bool)
    ensures
        r == is_numeric(c),
        (c as u32) < 128 ==> (r == is_digit(c)),
{
    c.is_numeric()
}

/// Whether a character is numeric: among ASCII characters exactly the
/// digits, beyond them as `char::is_numeric` says.
pub open spec fn numeric_char(c: char) -> bool {
    if (c as u32) < 128 {
        is_digit(c)
    } else {
        is_numeric(c)
    }
}

/// Whether an entry of `/sys/devices/system/cpu` is a core: its name holds
/// `cpu` and its fourth character is numeric.
pub open spec fn is_cpu_entry(name: Seq<char>) -> bool {
    contains(name, "cpu"@) && numeric_char(name[3])
}

/// The number of a core: its name after the first three characters, as an
/// `i8`, or 0 where that is no `i8`.
pub open spec fn entry_number(name: Seq<char>) -> i8 {
    match parse_i8(name.skip(3)) {
        Some(v) => v as i8,
        None => 0,
    }
}

/// The entries that the core listing can take: every name that holds `cpu`
/// has more than three characters, the first three of them ASCII.
pub open spec fn cpu_entries_readable(names: Seq<Seq<char>>) -> bool {
    forall|i: int|
        0 <= i < names.len() && #[trigger] contains(names[i], "cpu"@) ==> names[i].len() > 3 && (
        names[i][0] as u32) < 128 && (names[i][1] as u32) < 128 && (names[i][2] as u32) < 128
}

/// The cores among the entries, each with its name and number, in the
/// order of the entries.
pub open spec fn selected_cores(names: Seq<Seq<char>>) -> Seq<(Seq<char>, i8)>
    decreases names.len(),
{
    if names.len() == 0 {
        Seq::empty()
    } else {
        let rest = selected_cores(names.drop_last());
        let n = names.last();
        if is_cpu_entry(n) {
            rest.push((n, entry_number(n)))
        } else {
            rest
        }
    }
}

/// Where `x` goes in `s`: before the first entry with a greater number.
pub open spec fn insertion_point(s: Seq<(Seq<char>, i8)>, n: i8) -> int
    decreases s.len(),
{
    if s.len() == 0 {
        0
    } else if s[0].1 > n {
        0
    } else {
        1 + insertion_point(s.drop_first(), n)
    }
}

/// The entries ordered by number, entries of equal number in the order in
/// which they came (a stable sort, as `sort_by` on the numbers does).
pub open spec fn sort_by_number(s: Seq<(Seq<char>, i8)>) -> Seq<(Seq<char>, i8)>
    decreases s.len(),
{
    if s.len() == 0 {
        s
    } else {
        let r = sort_by_number(s.drop_last());
        r.insert(insertion_point(r, s.last().1), s.last())
    }
}

pub open spec fn sorted_by_number(s: Seq<(Seq<char>, i8)>) -> bool {
    forall|i: int, j: int| 0 <= i < j < s.len() ==> s[i].1 <= s[j].1
}

/// The names and numbers of cores.
pub open spec fn core_ids(cpus: Seq<CPU>) -> Seq<(Seq<char>, i8)> {
    cpus.map_values(|c: CPU| (c.name@, c.number))
}

proof fn lemma_insertion_point(s: Seq<(Seq<char>, i8)>, n: i8)
    ensures
        0 <= insertion_point(s, n) <= s.len(),
        forall|k: int| 0 <= k < insertion_point(s, n) ==> s[k].1 <= n,
        insertion_point(s, n) < s.len() ==> s[insertion_point(s, n)].1 > n,
    decreases s.len(),
{
    if s.len() > 0 && s[0].1 <= n {
        lemma_insertion_point(s.drop_first(), n);
        assert forall|k: int| 0 <= k < insertion_point(s, n) implies s[k].1 <= n by {
            if k > 0 {
                assert(s[k] == s.drop_first()[k - 1]);
            }
        }
    }
}

/// The core listing is ordered by number.
pub proof fn law_core_listing_sorted(s: Seq<(Seq<char>, i8)>)
    ensures
        sorted_by_number(sort_by_number(s)),
        sort_by_number(s).len() == s.len(),
    decreases s.len(),
{
    if s.len() > 0 {
        let r = sort_by_number(s.drop_last());
        law_core_listing_sorted(s.drop_last());
        let x = s.last();
        let k = insertion_point(r, x.1);
        lemma_insertion_point(r, x.1);
        let t = r.insert(k, x);
        assert forall|i: int, j: int| 0 <= i < j < t.len() implies t[i].1 <= t[j].1 by {
            if j < k {
            } else if j == k {
            } else if i < k {
                assert(t[j] == r[j - 1]);
                if k < r.len() {
                    assert(r[k].1 > x.1);
                }
            } else if i == k {
                assert(t[j] == r[j - 1]);
            } else {
                assert(t[j] == r[j - 1]);
                assert(t[i] == r[i - 1]);
            }
        }
    }
}

/// The core listing only reorders: it holds every selected core exactly as
/// often as the entries list it.
pub proof fn law_core_listing_permutes(s: Seq<(Seq<char>, i8)>)
    ensures
        sort_by_number(s).to_multiset() == s.to_multiset(),
    decreases s.len(),
{
    if s.len() > 0 {
        let r = sort_by_number(s.drop_last());
        law_core_listing_permutes(s.drop_last());
        law_core_listing_sorted(s.drop_last());
        lemma_insertion_point(r, s.last().1);
        vstd::seq_lib::to_multiset_insert(r, insertion_point(r, s.last().1), s.last());
        vstd::seq_lib::to_multiset_build(s.drop_last(), s.last());
        assert(s.drop_last().push(s.last()) =~= s);
    }
}

/// The cores among the entries of `/sys/devices/system/cpu` (the names of
/// its entries), each with placeholder readings, ordered by number.
pub fn cpus_from_entries(names: &Vec<String>) -> (cpus: Vec<CPU>)
    requires
        cpu_entries_readable(views(names@)),
    ensures
        core_ids(cpus@) == sort_by_number(selected_cores(views(names@))),
        forall|i: int|
            0 <= i < cpus@.len() ==> (#[trigger] cpus@[i]).max_freq == 0 && cpus@[i].min_freq
                == 0 && cpus@[i].cur_freq == 0 && cpus@[i].cur_temp == 0 && cpus@[i].gov@
                == "Unknown"@,
{
    let ghost all = views(names@);
    let cpu_word = chars_of("cpu");
    let mut cpus: Vec<CPU> = Vec::new();
    let mut i: usize = 0;
    assert(all.take(0) =~= Seq::<Seq<char>>::empty());
    assert(core_ids(cpus@) =~= Seq::<(Seq<char>, i8)>::empty());
    while i < names.len()
        invariant
            i <= names.len(),
            all == views(names@),
            cpu_entries_readable(all),
            cpu_word@ == "cpu"@,
            core_ids(cpus@) == sort_by_number(selected_cores(all.take(i as int))),
            forall|k: int|
                0 <= k < cpus@.len() ==> (#[trigger] cpus@[k]).max_freq == 0 && cpus@[k].min_freq
                    == 0 && cpus@[k].cur_freq == 0 && cpus@[k].cur_temp == 0 && cpus@[k].gov@
                    == "Unknown"@,
        decreases names.len() - i,
    {
        let ghost prefix = all.take(i + 1);
        assert(prefix.drop_last() =~= all.take(i as int));
        assert(prefix.last() == names@[i as int]@);
        let name = chars_of(names[i].as_str());
        if contains_chars(&name, &cpu_word) {
            assert(contains(all[i as int], "cpu"@));
            let fourth = name[3];
            if char_is_numeric(fourth) {
                let tail = slice_chars(&name, 3, name.len());
                assert(tail@ =~= all[i as int].skip(3));
                let number: i8 = match parse_int_chars(&tail, true, -128, 127) {
                    Some(x) => x as i8,
                    None => 0,
                };
                assert(number == entry_number(all[i as int]));
                let ghost sorted = core_ids(cpus@);
                proof {
                    lemma_insertion_point(sorted, number);
                }
                let mut k: usize = 0;
                while k < cpus.len() && cpus[k].number <= number
                    invariant
                        k <= cpus.len(),
                        sorted == core_ids(cpus@),
                        forall|m: int| 0 <= m < k ==> sorted[m].1 <= number,
                    decreases cpus.len() - k,
                {
                    assert(sorted[k as int].1 == cpus@[k as int].number);
                    k = k + 1;
                }
                assert(k == insertion_point(sorted, number)) by {
                    if k < cpus.len() {
                        assert(sorted[k as int].1 == cpus@[k as int].number);
                    }
                    lemma_insertion_point_first_greater(sorted, number, k as int);
                }
                let ghost x = (all[i as int], number);
                let ghost rest = selected_cores(all.take(i as int));
                assert(is_cpu_entry(prefix.last()));
                assert(selected_cores(prefix) == rest.push(x));
                assert(rest.push(x).drop_last() =~= rest);
                assert(sort_by_number(rest.push(x)) == sorted.insert(k as int, x));
                let cpu = CPU::new(names[i].clone(), number);
                let ghost before = cpus@;
                cpus.insert(k, cpu);
                assert(core_ids(cpus@) =~= sorted.insert(
                    k as int,
                    (all[i as int], number),
                ));
            } else {
                assert(!is_cpu_entry(prefix.last()));
            }
        } else {
            assert(!is_cpu_entry(prefix.last()));
        }
        i = i + 1;
    }
    assert(all.take(names.len() as int) =~= all);
    cpus
}

proof fn lemma_insertion_point_first_greater(s: Seq<(Seq<char>, i8)>, n: i8, k: int)
    requires
        0 <= k <= s.len(),
        forall|m: int| 0 <= m < k ==> s[m].1 <= n,
        k < s.len() ==> s[k].1 > n,
    ensures
        insertion_point(s, n) == k,
    decreases s.len(),
{
    if s.len() > 0 && k > 0 {
        lemma_insertion_point_first_greater(s.drop_first(), n, k - 1);
    }
}

/// The current frequency of each core.
pub fn list_cpu_speeds(cpus: &Vec<CPU>) -> (speeds: Vec<i32>)
    ensures
        speeds@.len() == cpus@.len(),
        forall|i: int| 0 <= i < cpus@.len() ==> speeds@[i] == (#[trigger] cpus@[i]).cur_freq,
{
    let mut r: Vec<i32> = Vec::new();
    let mut i: usize = 0;
    while i < cpus.len()
        invariant
            i <= cpus.len(),
            r@.len() == i,
            forall|k: int| 0 <= k < i ==> r@[k] == (#[trigger] cpus@[k]).cur_freq,
        decreases cpus.len() - i,
    {
        r.push(cpus[i].cur_freq);
        i = i + 1;
    }
    r
}

/// The temperature of each core.
pub fn list_cpu_temp(cpus: &Vec<CPU>) -> (temps: Vec<i32>)
    ensures
        temps@.len() == cpus@.len(),
        forall|i: int| 0 <= i < cpus@.len() ==> temps@[i] == (#[trigger] cpus@[i]).cur_temp,
{
    let mut r: Vec<i32> = Vec::new();
    let mut i: usize = 0;
    while i < cpus.len()
        invariant
            i <= cpus.len(),
            r@.len() == i,
            forall|k: int| 0 <= k < i ==> r@[k] == (#[trigger] cpus@[k]).cur_temp,
        decreases cpus.len() - i,
    {
        r.push(cpus[i].cur_temp);
        i = i + 1;
    }
    r
}

/// The governor of each core.
pub fn list_cpu_governors(cpus: &Vec<CPU>) -> (govs: Vec<String>)
    ensures
        govs@.len() == cpus@.len(),
        forall|i: int| 0 <= i < cpus@.len() ==> govs@[i]@ == (#[trigger] cpus@[i]).gov@,
{
    let mut r: Vec<String> = Vec::new();
    let mut i: usize = 0;
    while i < cpus.len()
        invariant
            i <= cpus.len(),
            r@.len() == i,
            forall|k: int| 0 <= k < i ==> r@[k]@ == (#[trigger] cpus@[k]).gov@,
        decreases cpus.len() - i,
    {
        r.push(cpus[i].gov.clone());
        i = i + 1;
    }
    r
}

/// The highest of the temperatures, and zero.
pub open spec fn highest_temp(temps: Seq<CPU>) -> int
    decreases temps.len(),
{
    if temps.len() == 0 {
        0
    } else {
        let m = highest_temp(temps.drop_last());
        if temps.last().cur_temp > m {
            temps.last().cur_temp as int
        } else {
            m
        }
    }
}

pub proof fn lemma_highest_temp_bounds(s: Seq<CPU>)
    ensures
        0 <= highest_temp(s) <= i32::MAX,
    decreases s.len(),
{
    if s.len() > 0 {
        lemma_highest_temp_bounds(s.drop_last());
    }
}

/// The highest core temperature, or zero if none is above zero.
pub fn get_highest_temp(cpus: &Vec<CPU>) -> (t: i32)
    ensures
        t == highest_temp(cpus@),
{
    let mut temp_max: i32 = 0;
    let mut i: usize = 0;
    assert(cpus@.take(0) =~= Seq::<CPU>::empty());
    while i < cpus.len()
        invariant
            i <= cpus.len(),
            temp_max == highest_temp(cpus@.take(i as int)),
        decreases cpus.len() - i,
    {
        assert(cpus@.take(i + 1).drop_last() =~= cpus@.take(i as int));
        if cpus[i].cur_temp > temp_max {
            temp_max = cpus[i].cur_temp;
        }
        i = i + 1;
    }
    assert(cpus@.take(cpus.len() as int) =~= cpus@);
    temp_max
}

} // verus!
