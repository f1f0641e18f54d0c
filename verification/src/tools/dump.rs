//! Reading the text dump of a reference LC-3 simulator's state: the lines
//! holding the program counter, the processor status register and the
//! general purpose registers, and the memory lines after the header.

use vstd::prelude::*;
use super::{hex_value, hex_string_to_integer_checked};
use super::text::{contains, split, str_contains, split_str, lines, words, lines_of, words_of};

verus! {

/// A line of a dump, and whether it held what it was sorted by.
#[allow(non_camel_case_types)]
#[derive(Debug, Clone)]
pub struct string_flags {
    pub temp_string: String,
    pub condition: bool,
}

/// The words of each line of `s` (lines as `str::lines` splits them,
/// words as `str::split_whitespace` does).
pub fn words_by_line<'a>(s: &'a str) -> (r: Vec<Vec<&'a str>>)
    ensures
        r@.len() == lines(s@).len(),
        forall|i: int|
            0 <= i < r@.len() ==> (#[trigger] r@[i])@.len() == words(lines(s@)[i]).len() && forall|j: int|
                0 <= j < r@[i]@.len() ==> (#[trigger] r@[i]@[j])@ == words(lines(s@)[i])[j],
{
    let ls = lines_of(s);
    let mut out: Vec<Vec<&'a str>> = Vec::new();
    let mut i: usize = 0;
    while i < ls.len()
        invariant
            ls@.len() == lines(s@).len(),
            forall|k: int| 0 <= k < ls@.len() ==> #[trigger] ls@[k]@ == lines(s@)[k],
            0 <= i <= ls@.len(),
            out@.len() == i,
            forall|k: int|
                0 <= k < i ==> (#[trigger] out@[k])@.len() == words(lines(s@)[k]).len() && forall|j: int|
                    0 <= j < out@[k]@.len() ==> (#[trigger] out@[k]@[j])@ == words(lines(s@)[k])[j],
        decreases ls@.len() - i,
    {
        let w = words_of(ls[i]);
        out.push(w);
        i = i + 1;
    }
    out
}

/// The position of the first line in `s` that contains `mem`, or `s.len()`
/// when none does.
pub open spec fn first_containing(s: Seq<string_flags>, mem: Seq<char>) -> int
    decreases s.len(),
{
    if s.len() == 0 {
        0
    } else if contains(s[0].temp_string@, mem) {
        0
    } else {
        1 + first_containing(s.drop_first(), mem)
    }
}

/// `first_containing` is the first position whose line contains `mem`.
proof fn lemma_first_containing(s: Seq<string_flags>, mem: Seq<char>, i: int)
    requires
        0 <= i <= s.len(),
        forall|j: int| 0 <= j < i ==> !contains((#[trigger] s[j]).temp_string@, mem),
        i < s.len() ==> contains(s[i].temp_string@, mem),
    ensures
        first_containing(s, mem) == i,
    decreases s.len(),
{
    if s.len() > 0 && i > 0 {
        assert(!contains(s[0].temp_string@, mem));
        assert forall|j: int| 0 <= j < i - 1 implies !contains((#[trigger] s.drop_first()[j]).temp_string@, mem) by {
            assert(s.drop_first()[j] == s[j + 1]);
        }
        lemma_first_containing(s.drop_first(), mem, i - 1);
    }
}

/// The text of the first line that contains `mem`, or `Can't find` when
/// no line does.
pub fn find_memory(s: Vec<string_flags>, mem: &str) -> (r: String)
    ensures
        first_containing(s@, mem@) < s@.len() ==> r@ == s@[first_containing(s@, mem@)].temp_string@,
        first_containing(s@, mem@) >= s@.len() ==> r@ == "Can't find"@,
{
    let mut i: usize = 0;
    while i < s.len()
        invariant
            0 <= i <= s@.len(),
            forall|j: int| 0 <= j < i ==> !contains((#[trigger] s@[j]).temp_string@, mem@),
        decreases s@.len() - i,
    {
        if str_contains(s[i].temp_string.as_str(), mem) {
            proof {
                lemma_first_containing(s@, mem@, i as int);
            }
            return s[i].temp_string.clone();
        }
        i = i + 1;
    }
    proof {
        lemma_first_containing(s@, mem@, s@.len() as int);
    }
    "Can't find".to_owned()
}

/// How a line of a dump is sorted: by the first of the markers `PC: `,
/// `PSR: `, `R0: `, `R4: ` it contains; a line with none of them is a
/// memory line once past the header (line 33 on, counting from zero).
#[derive(Debug, Copy, Clone, PartialEq, Eq)]
pub enum LineKind {
    Pc,
    Psr,
    R0,
    R4,
    Memory,
    Header,
}

pub open spec fn pc_marker() -> Seq<char> {
    seq!['P', 'C', ':', ' ']
}

pub open spec fn psr_marker() -> Seq<char> {
    seq!['P', 'S', 'R', ':', ' ']
}

pub open spec fn r0_marker() -> Seq<char> {
    seq!['R', '0', ':', ' ']
}

pub open spec fn r4_marker() -> Seq<char> {
    seq!['R', '4', ':', ' ']
}

/// The kind of the line at position `index`.
pub open spec fn line_kind(index: int, l: Seq<char>) -> LineKind {
    if contains(l, pc_marker()) {
        LineKind::Pc
    } else if contains(l, psr_marker()) {
        LineKind::Psr
    } else if contains(l, r0_marker()) {
        LineKind::R0
    } else if contains(l, r4_marker()) {
        LineKind::R4
    } else if index > 32 {
        LineKind::Memory
    } else {
        LineKind::Header
    }
}

/// The position of the last line of kind `k`, or -1.
pub open spec fn last_of_kind(ls: Seq<Seq<char>>, k: LineKind) -> int
    decreases ls.len(),
{
    if ls.len() == 0 {
        -1
    } else if line_kind(ls.len() - 1, ls.last()) == k {
        ls.len() - 1
    } else {
        last_of_kind(ls.drop_last(), k)
    }
}

/// The memory lines, in order.
pub open spec fn memory_lines(ls: Seq<Seq<char>>) -> Seq<Seq<char>>
    decreases ls.len(),
{
    if ls.len() == 0 {
        Seq::empty()
    } else if line_kind(ls.len() - 1, ls.last()) == LineKind::Memory {
        memory_lines(ls.drop_last()).push(ls.last())
    } else {
        memory_lines(ls.drop_last())
    }
}

/// The second piece of `l` split at `p` (what follows the first
/// occurrence of `p`, up to the next), if there is one.
pub open spec fn second_piece(l: Seq<char>, p: Seq<char>) -> Option<Seq<char>> {
    let parts = split(l, p);
    if parts.len() >= 2 {
        Some(parts[1])
    } else {
        None
    }
}

/// The four register values on a line of the form
/// `R0: v0 R1: v1 R2: v2 R3: v3`: the second space-separated piece of each
/// of the four pieces after an `R`.
pub open spec fn four_registers(l: Seq<char>) -> Option<Seq<Seq<char>>> {
    let parts = split(l, seq!['R']);
    if parts.len() >= 5
        && second_piece(parts[1], seq![' ']) is Some
        && second_piece(parts[2], seq![' ']) is Some
        && second_piece(parts[3], seq![' ']) is Some
        && second_piece(parts[4], seq![' ']) is Some {
        Some(
            seq![
                second_piece(parts[1], seq![' ']).unwrap(),
                second_piece(parts[2], seq![' ']).unwrap(),
                second_piece(parts[3], seq![' ']).unwrap(),
                second_piece(parts[4], seq![' ']).unwrap(),
            ],
        )
    } else {
        None
    }
}

/// The address and value on a memory line of the form `x3000: x1234 ...`:
/// the hex after the `x` of the first word (up to a `:`) and after the `x`
/// of the second word; `None` where a piece is missing or a number does
/// not fit in a `u32`.
pub open spec fn memory_entry(l: Seq<char>) -> Option<(u32, u32)> {
    let w = split(l, seq![' ']);
    let a = second_piece(w[0], seq!['x']);
    if a is None || w.len() < 2 || second_piece(w[1], seq!['x']) is None {
        None
    } else {
        let key = hex_value(split(a.unwrap(), seq![':'])[0]);
        let value = hex_value(second_piece(w[1], seq!['x']).unwrap());
        if key <= u32::MAX && value <= u32::MAX {
            Some((key as u32, value as u32))
        } else {
            None
        }
    }
}

/// The entries of the memory lines that hold `0x`, in order; `None` where
/// one of them is malformed.
pub open spec fn memory_entries(ms: Seq<Seq<char>>) -> Option<Seq<(u32, u32)>>
    decreases ms.len(),
{
    if ms.len() == 0 {
        Some(Seq::empty())
    } else {
        match memory_entries(ms.drop_last()) {
            None => None,
            Some(es) => if contains(ms.last(), seq!['0', 'x']) {
                match memory_entry(ms.last()) {
                    None => None,
                    Some(e) => Some(es.push(e)),
                }
            } else {
                Some(es)
            },
        }
    }
}

/// What a dump holds: the program counter and processor status register as
/// written, the eight general purpose registers as written, and the
/// memory entries in the order they appear.
#[derive(Debug, Clone, PartialEq, Eq)]
pub struct Dump {
    pub pc: String,
    pub psr: String,
    pub registers: Vec<String>,
    pub memory: Vec<(u32, u32)>,
}

/// What `parse_dump` reads from the lines `ls`, or `None` where a dump
/// line is missing or malformed.
pub open spec fn spec_dump(ls: Seq<Seq<char>>) -> Option<(Seq<char>, Seq<char>, Seq<Seq<char>>, Seq<(u32, u32)>)> {
    let pc = last_of_kind(ls, LineKind::Pc);
    let psr = last_of_kind(ls, LineKind::Psr);
    let r0 = last_of_kind(ls, LineKind::R0);
    let r4 = last_of_kind(ls, LineKind::R4);
    if pc < 0 || psr < 0 || r0 < 0 || r4 < 0 {
        None
    } else {
        let pc_val = second_piece(ls[pc], pc_marker());
        let psr_val = second_piece(ls[psr], psr_marker());
        let low = four_registers(ls[r0]);
        let high = four_registers(ls[r4]);
        let mem = memory_entries(memory_lines(ls));
        if pc_val is None || psr_val is None || low is None || high is None || mem is None {
            None
        } else {
            Some((pc_val.unwrap(), psr_val.unwrap(), low.unwrap() + high.unwrap(), mem.unwrap()))
        }
    }
}

/// The text of each line.
pub open spec fn line_views(ls: Seq<String>) -> Seq<Seq<char>> {
    ls.map_values(|l: String| l@)
}

/// The kind of the line at position `index`.
pub fn line_kind_of(index: usize, l: &str) -> (k: LineKind)
    ensures
        k == line_kind(index as int, l@),
{
    let pc = "PC: ";
    let psr = "PSR: ";
    let r0 = "R0: ";
    let r4 = "R4: ";
    proof {
        reveal_strlit("PC: ");
        reveal_strlit("PSR: ");
        reveal_strlit("R0: ");
        reveal_strlit("R4: ");
    }
    assert(pc@ =~= pc_marker());
    assert(psr@ =~= psr_marker());
    assert(r0@ =~= r0_marker());
    assert(r4@ =~= r4_marker());
    if str_contains(l, pc) {
        LineKind::Pc
    } else if str_contains(l, psr) {
        LineKind::Psr
    } else if str_contains(l, r0) {
        LineKind::R0
    } else if str_contains(l, r4) {
        LineKind::R4
    } else if index > 32 {
        LineKind::Memory
    } else {
        LineKind::Header
    }
}

/// The second piece of `l` split at the non-empty `p`, if there is one.
fn second_piece_of<'a>(l: &'a str, p: &str) -> (r: Option<&'a str>)
    requires
        p@.len() > 0,
    ensures
        r is Some <==> second_piece(l@, p@) is Some,
        r matches Some(x) ==> second_piece(l@, p@) == Some(x@),
{
    let parts = split_str(l, p);
    if parts.len() >= 2 {
        Some(parts[1])
    } else {
        None
    }
}

/// The four register values on a register line.
fn registers_of<'a>(l: &'a str) -> (r: Option<Vec<&'a str>>)
    ensures
        r is Some <==> four_registers(l@) is Some,
        r matches Some(v) ==> v@.len() == 4 && forall|k: int| 0 <= k < 4 ==> #[trigger] v@[k]@ == four_registers(l@).unwrap()[k],
{
    let r_sep = "R";
    let space = " ";
    proof {
        reveal_strlit("R");
        reveal_strlit(" ");
    }
    assert(r_sep@ =~= seq!['R']);
    assert(space@ =~= seq![' ']);
    let parts = split_str(l, r_sep);
    if parts.len() < 5 {
        return None;
    }
    let a = match second_piece_of(parts[1], space) {
        Some(x) => x,
        None => {
            return None;
        },
    };
    let b = match second_piece_of(parts[2], space) {
        Some(x) => x,
        None => {
            return None;
        },
    };
    let c = match second_piece_of(parts[3], space) {
        Some(x) => x,
        None => {
            return None;
        },
    };
    let d = match second_piece_of(parts[4], space) {
        Some(x) => x,
        None => {
            return None;
        },
    };
    let v = vec![a, b, c, d];
    Some(v)
}

/// The address and value on a memory line.
pub fn memory_entry_of(l: &str) -> (r: Option<(u32, u32)>)
    ensures
        r == memory_entry(l@),
{
    let space = " ";
    let x = "x";
    let colon = ":";
    proof {
        reveal_strlit(" ");
        reveal_strlit("x");
        reveal_strlit(":");
    }
    assert(space@ =~= seq![' ']);
    assert(x@ =~= seq!['x']);
    assert(colon@ =~= seq![':']);
    let w = split_str(l, space);
    proof {
        super::text::lemma_split_nonempty(l@, seq![' ']);
    }
    let a = match second_piece_of(w[0], x) {
        Some(v) => v,
        None => {
            return None;
        },
    };
    let addr_parts = split_str(a, colon);
    proof {
        super::text::lemma_split_nonempty(a@, seq![':']);
    }
    let key = match hex_string_to_integer_checked(addr_parts[0]) {
        Some(k) => k,
        None => {
            return None;
        },
    };
    if w.len() < 2 {
        return None;
    }
    let b = match second_piece_of(w[1], x) {
        Some(v) => v,
        None => {
            return None;
        },
    };
    match hex_string_to_integer_checked(b) {
        Some(value) => Some((key, value)),
        None => None,
    }
}

/// `last_of_kind` is -1 or the position of a line of that kind.
proof fn lemma_last_of_kind(ls: Seq<Seq<char>>, k: LineKind)
    ensures
        -1 <= last_of_kind(ls, k) < ls.len(),
        last_of_kind(ls, k) >= 0 ==> line_kind(last_of_kind(ls, k), ls[last_of_kind(ls, k)]) == k,
    decreases ls.len(),
{
    if ls.len() > 0 && line_kind(ls.len() - 1, ls.last()) != k {
        lemma_last_of_kind(ls.drop_last(), k);
    }
}

/// The line a dump reads for a kind is the last line of that kind: it has
/// that kind and no later line does; where there is none, no line has it.
pub proof fn lemma_last_of_kind_is_last(ls: Seq<Seq<char>>, k: LineKind)
    ensures
        last_of_kind(ls, k) >= 0 ==> last_of_kind(ls, k) < ls.len() && line_kind(last_of_kind(ls, k), ls[last_of_kind(ls, k)]) == k,
        forall|j: int| last_of_kind(ls, k) < j < ls.len() ==> line_kind(j, #[trigger] ls[j]) != k,
        last_of_kind(ls, k) == -1 || last_of_kind(ls, k) >= 0,
    decreases ls.len(),
{
    if ls.len() > 0 && line_kind(ls.len() - 1, ls.last()) != k {
        lemma_last_of_kind_is_last(ls.drop_last(), k);
        assert forall|j: int| last_of_kind(ls, k) < j < ls.len() implies line_kind(j, #[trigger] ls[j]) != k by {
            if j < ls.len() - 1 {
                assert(ls.drop_last()[j] == ls[j]);
            }
        }
    }
}

/// A prefix whose entries are malformed makes the whole malformed.
proof fn lemma_entries_none_extends(ms: Seq<Seq<char>>, k: int)
    requires
        0 <= k <= ms.len(),
        memory_entries(ms.take(k)) is None,
    ensures
        memory_entries(ms) is None,
    decreases ms.len() - k,
{
    if k < ms.len() {
        assert(ms.take(k + 1).drop_last() =~= ms.take(k));
        lemma_entries_none_extends(ms, k + 1);
    } else {
        assert(ms.take(k) =~= ms);
    }
}

/// Whether the lines `ls` make a complete dump: each register line is
/// present and well formed, and so is every memory entry.
pub fn dump_is_complete(ls: &Vec<String>) -> (b: bool)
    ensures
        b == spec_dump(line_views(ls@)) is Some,
{
    read_dump(ls).is_some()
}

/// Reads a complete dump given as its lines (without line terminators):
/// the last `PC: `, `PSR: `, `R0: ` and `R4: ` lines give the registers;
/// the memory lines past the header that hold `0x` give the memory entries.
pub fn parse_dump(ls: &Vec<String>) -> (d: Dump)
    requires
        spec_dump(line_views(ls@)) is Some,
    ensures
        spec_dump(line_views(ls@)) matches Some((pc, psr, regs, mem)) && {
            &&& d.pc@ == pc
            &&& d.psr@ == psr
            &&& d.registers@.len() == 8
            &&& forall|k: int| 0 <= k < 8 ==> #[trigger] d.registers@[k]@ == regs[k]
            &&& d.memory@ == mem
        },
{
    match read_dump(ls) {
        Some(d) => d,
        None => {
            proof {
                assert(false);
            }
            Dump { pc: String::new(), psr: String::new(), registers: Vec::new(), memory: Vec::new() }
        },
    }
}

/// The dump in `ls`, or `None` where a register line is missing or a
/// register or memory line is malformed.
fn read_dump(ls: &Vec<String>) -> (r: Option<Dump>)
    ensures
        spec_dump(line_views(ls@)) is None ==> r is None,
        spec_dump(line_views(ls@)) matches Some((pc, psr, regs, mem)) ==> r matches Some(d) && {
            &&& d.pc@ == pc
            &&& d.psr@ == psr
            &&& d.registers@.len() == 8
            &&& forall|k: int| 0 <= k < 8 ==> #[trigger] d.registers@[k]@ == regs[k]
            &&& d.memory@ == mem
        },
{
    let ghost views = line_views(ls@);
    let mut last_pc: Option<usize> = None;
    let mut last_psr: Option<usize> = None;
    let mut last_r0: Option<usize> = None;
    let mut last_r4: Option<usize> = None;
    let mut mems: Vec<&str> = Vec::new();
    let mut i: usize = 0;
    while i < ls.len()
        invariant
            views == line_views(ls@),
            views.len() == ls@.len(),
            0 <= i <= ls@.len(),
            last_pc matches Some(k) ==> last_of_kind(views.take(i as int), LineKind::Pc) == k,
            last_pc is None ==> last_of_kind(views.take(i as int), LineKind::Pc) == -1,
            last_psr matches Some(k) ==> last_of_kind(views.take(i as int), LineKind::Psr) == k,
            last_psr is None ==> last_of_kind(views.take(i as int), LineKind::Psr) == -1,
            last_r0 matches Some(k) ==> last_of_kind(views.take(i as int), LineKind::R0) == k,
            last_r0 is None ==> last_of_kind(views.take(i as int), LineKind::R0) == -1,
            last_r4 matches Some(k) ==> last_of_kind(views.take(i as int), LineKind::R4) == k,
            last_r4 is None ==> last_of_kind(views.take(i as int), LineKind::R4) == -1,
            mems@.len() == memory_lines(views.take(i as int)).len(),
            forall|k: int| 0 <= k < mems@.len() ==> #[trigger] mems@[k]@ == memory_lines(views.take(i as int))[k],
        decreases ls@.len() - i,
    {
        let line = ls[i].as_str();
        let kind = line_kind_of(i, line);
        proof {
            assert(views.take(i + 1).drop_last() =~= views.take(i as int));
            assert(views.take(i + 1).last() == views[i as int]);
            assert(views[i as int] == ls@[i as int]@);
        }
        match kind {
            LineKind::Pc => {
                last_pc = Some(i);
            },
            LineKind::Psr => {
                last_psr = Some(i);
            },
            LineKind::R0 => {
                last_r0 = Some(i);
            },
            LineKind::R4 => {
                last_r4 = Some(i);
            },
            LineKind::Memory => {
                mems.push(line);
            },
            LineKind::Header => {},
        }
        i = i + 1;
    }
    assert(views.take(ls@.len() as int) =~= views);
    proof {
        lemma_last_of_kind(views, LineKind::Pc);
        lemma_last_of_kind(views, LineKind::Psr);
        lemma_last_of_kind(views, LineKind::R0);
        lemma_last_of_kind(views, LineKind::R4);
    }
    let (pc_i, psr_i, r0_i, r4_i) = match (last_pc, last_psr, last_r0, last_r4) {
        (Some(a), Some(b), Some(c), Some(d)) => (a, b, c, d),
        _ => {
            return None;
        },
    };
    let pc_marker_s = "PC: ";
    let psr_marker_s = "PSR: ";
    proof {
        reveal_strlit("PC: ");
        reveal_strlit("PSR: ");
    }
    assert(pc_marker_s@ =~= pc_marker());
    assert(psr_marker_s@ =~= psr_marker());
    assert(views[pc_i as int] == ls@[pc_i as int]@);
    assert(views[psr_i as int] == ls@[psr_i as int]@);
    assert(views[r0_i as int] == ls@[r0_i as int]@);
    assert(views[r4_i as int] == ls@[r4_i as int]@);
    let pc = match second_piece_of(ls[pc_i].as_str(), pc_marker_s) {
        Some(v) => v,
        None => {
            return None;
        },
    };
    let psr = match second_piece_of(ls[psr_i].as_str(), psr_marker_s) {
        Some(v) => v,
        None => {
            return None;
        },
    };
    let low = match registers_of(ls[r0_i].as_str()) {
        Some(v) => v,
        None => {
            return None;
        },
    };
    let high = match registers_of(ls[r4_i].as_str()) {
        Some(v) => v,
        None => {
            return None;
        },
    };
    let ghost ml = memory_lines(views);
    let mut entries: Vec<(u32, u32)> = Vec::new();
    let mut k: usize = 0;
    assert(ml.take(0) =~= Seq::<Seq<char>>::empty());
    while k < mems.len()
        invariant
            views == line_views(ls@),
            ml == memory_lines(views),
            mems@.len() == ml.len(),
            forall|j: int| 0 <= j < mems@.len() ==> #[trigger] mems@[j]@ == ml[j],
            0 <= k <= mems@.len(),
            memory_entries(ml.take(k as int)) == Some(entries@),
        decreases mems@.len() - k,
    {
        let line = mems[k];
        proof {
            assert(ml.take(k + 1).drop_last() =~= ml.take(k as int));
            assert(ml.take(k + 1).last() == ml[k as int]);
        }
        let zero_x = "0x";
        proof {
            reveal_strlit("0x");
        }
        assert(zero_x@ =~= seq!['0', 'x']);
        if str_contains(line, zero_x) {
            match memory_entry_of(line) {
                Some(e) => {
                    entries.push(e);
                },
                None => {
                    proof {
                        lemma_entries_none_extends(ml, k + 1);
                    }
                    return None;
                },
            }
        }
        k = k + 1;
    }
    assert(ml.take(mems@.len() as int) =~= ml);
    let mut registers: Vec<String> = Vec::new();
    let mut j: usize = 0;
    while j < 4
        invariant
            low@.len() == 4,
            0 <= j <= 4,
            registers@.len() == j,
            forall|q: int| 0 <= q < j ==> #[trigger] registers@[q]@ == low@[q]@,
        decreases 4 - j,
    {
        registers.push(low[j].to_owned());
        j = j + 1;
    }
    while j < 8
        invariant
            low@.len() == 4,
            high@.len() == 4,
            4 <= j <= 8,
            registers@.len() == j,
            forall|q: int| 0 <= q < 4 ==> #[trigger] registers@[q]@ == low@[q]@,
            forall|q: int| 4 <= q < j ==> #[trigger] registers@[q]@ == high@[q - 4]@,
        decreases 8 - j,
    {
        registers.push(high[j - 4].to_owned());
        j = j + 1;
    }
    Some(Dump { pc: pc.to_owned(), psr: psr.to_owned(), registers, memory: entries })
}

} // verus!
