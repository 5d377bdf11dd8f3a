//! Memory inspection tools: value search with snapshots, watchpoints, hex
//! dumps, a linear disassembler and cheat-code decoding.

use vstd::prelude::*;
use vstd::slice::slice_to_vec;
use vstd::string::*;

verus! {

#[derive(Debug, Clone, Copy, PartialEq, Eq, Structural)]
pub enum MemoryRegion {
    /// CPU RAM ($0000-$07FF, mirrored to $1FFF).
    Ram,
    /// PPU nametable memory.
    Vram,
    /// PPU OAM.
    Oam,
    /// PPU palette.
    Palette,
    PrgRom,
    /// Cartridge PRG RAM ($6000-$7FFF).
    PrgRam,
    Chr,
}

#[derive(Debug, Clone, Copy, PartialEq, Eq, Structural)]
pub enum SearchCondition {
    Equal(u8),
    NotEqual(u8),
    GreaterThan(u8),
    LessThan(u8),
    /// Inclusive range.
    Between(u8, u8),
    /// Compared with the previous snapshot.
    Increased,
    Decreased,
    Unchanged,
    Changed,
}

#[derive(Debug, Clone, Copy, PartialEq, Eq, Structural)]
pub struct SearchResult {
    pub address: u16,
    pub value: u8,
    pub previous_value: Option<u8>,
}

#[derive(Debug)]
pub struct Watchpoint {
    pub id: u32,
    pub region: MemoryRegion,
    pub address: u16,
    pub label: String,
    pub last_value: u8,
}

pub struct MemoryEditor {
    pub search_snapshot: Option<Vec<u8>>,
    pub search_region: MemoryRegion,
    pub search_results: Vec<SearchResult>,
    /// Kept in increasing id order.
    pub watchpoints: Vec<Watchpoint>,
    pub next_watchpoint_id: u32,
}

#[derive(Debug)]
pub struct CheatCode {
    pub address: u16,
    pub value: u8,
    pub compare: Option<u8>,
    pub enabled: bool,
    pub description: String,
}

// ---------------------------------------------------------------------------
// Searching
// ---------------------------------------------------------------------------

pub open spec fn condition_holds(c: SearchCondition, value: u8, prev: Option<u8>) -> bool {
    match c {
        SearchCondition::Equal(v) => value == v,
        SearchCondition::NotEqual(v) => value != v,
        SearchCondition::GreaterThan(v) => value > v,
        SearchCondition::LessThan(v) => value < v,
        SearchCondition::Between(lo, hi) => lo <= value <= hi,
        SearchCondition::Increased => prev matches Some(p) && value > p,
        SearchCondition::Decreased => prev matches Some(p) && value < p,
        SearchCondition::Unchanged => prev matches Some(p) && value == p,
        SearchCondition::Changed => prev matches Some(p) && value != p,
    }
}

/// The snapshot's byte at `i`, if it has one.
pub open spec fn prev_at(snap: Option<Seq<u8>>, i: int) -> Option<u8> {
    match snap {
        Some(s) => if 0 <= i < s.len() {
            Some(s[i])
        } else {
            None
        },
        None => None,
    }
}

pub open spec fn byte_or_zero(s: Seq<u8>, i: int) -> u8 {
    if 0 <= i < s.len() {
        s[i]
    } else {
        0
    }
}

/// Matches among the first `n` bytes of `cur`, in address order.
pub open spec fn search_spec(c: SearchCondition, cur: Seq<u8>, snap: Option<Seq<u8>>, n: nat) -> Seq<
    SearchResult,
>
    decreases n,
{
    if n == 0 {
        Seq::empty()
    } else {
        let i = n - 1;
        let prev = search_spec(c, cur, snap, (n - 1) as nat);
        if condition_holds(c, cur[i], prev_at(snap, i)) {
            prev.push(SearchResult { address: (i % 0x10000) as u16, value: cur[i], previous_value: prev_at(snap, i) })
        } else {
            prev
        }
    }
}

/// The first `n` earlier results narrowed by `c` and refreshed from `cur`.
pub open spec fn filter_spec(
    c: SearchCondition,
    cur: Seq<u8>,
    snap: Option<Seq<u8>>,
    olds: Seq<SearchResult>,
    n: nat,
) -> Seq<SearchResult>
    decreases n,
{
    if n == 0 {
        Seq::empty()
    } else {
        let r = olds[n - 1];
        let a = r.address as int;
        let prev = filter_spec(c, cur, snap, olds, (n - 1) as nat);
        if condition_holds(c, byte_or_zero(cur, a), prev_at(snap, a)) {
            prev.push(SearchResult { address: r.address, value: byte_or_zero(cur, a), previous_value: Some(r.value) })
        } else {
            prev
        }
    }
}

fn holds(c: SearchCondition, value: u8, prev: Option<u8>) -> (r: bool)
    ensures
        r == condition_holds(c, value, prev),
{
    match c {
        SearchCondition::Equal(v) => value == v,
        SearchCondition::NotEqual(v) => value != v,
        SearchCondition::GreaterThan(v) => value > v,
        SearchCondition::LessThan(v) => value < v,
        SearchCondition::Between(lo, hi) => value >= lo && value <= hi,
        SearchCondition::Increased => match prev {
            Some(p) => value > p,
            None => false,
        },
        SearchCondition::Decreased => match prev {
            Some(p) => value < p,
            None => false,
        },
        SearchCondition::Unchanged => match prev {
            Some(p) => value == p,
            None => false,
        },
        SearchCondition::Changed => match prev {
            Some(p) => value != p,
            None => false,
        },
    }
}

fn snapshot_at(snap: &Option<Vec<u8>>, i: usize) -> (r: Option<u8>)
    ensures
        r == prev_at(snapshot_view(snap), i as int),
{
    match snap {
        Some(s) => if i < s.len() {
            Some(s[i])
        } else {
            None
        },
        None => None,
    }
}

pub open spec fn snapshot_view(snap: &Option<Vec<u8>>) -> Option<Seq<u8>> {
    match snap {
        Some(v) => Some(v@),
        None => None,
    }
}

pub open spec fn ids(w: Seq<Watchpoint>) -> Seq<u32> {
    w.map_values(|x: Watchpoint| x.id)
}

impl MemoryEditor {
    pub open spec fn wf(&self) -> bool {
        &&& forall|i: int, j: int|
            0 <= i < j < self.watchpoints@.len() ==> #[trigger] self.watchpoints@[i].id
                < #[trigger] self.watchpoints@[j].id
        &&& forall|i: int|
            0 <= i < self.watchpoints@.len() ==> #[trigger] self.watchpoints@[i].id
                < self.next_watchpoint_id
    }

    pub open spec fn snapshot(&self) -> Option<Seq<u8>> {
        snapshot_view(&self.search_snapshot)
    }

    pub fn new() -> (r: MemoryEditor)
        ensures
            r.wf(),
            r.snapshot() is None,
            r.search_results@.len() == 0,
            r.watchpoints@.len() == 0,
            r.next_watchpoint_id == 1,
    {
        MemoryEditor {
            search_snapshot: None,
            search_region: MemoryRegion::Ram,
            search_results: Vec::new(),
            watchpoints: Vec::new(),
            next_watchpoint_id: 1,
        }
    }

    /// Snapshots `memory` as the baseline of a new search over `region`.
    pub fn start_search(&mut self, region: MemoryRegion, memory: &[u8])
        requires
            old(self).wf(),
        ensures
            final(self).wf(),
            final(self).snapshot() == Some(memory@),
            final(self).search_region == region,
            final(self).search_results@.len() == 0,
    {
        self.search_snapshot = Some(slice_to_vec(memory));
        self.search_region = region;
        self.search_results = Vec::new();
    }

    /// Every address of `current_memory` that meets `condition` (against the
    /// snapshot for the relative conditions); the snapshot then becomes
    /// `current_memory`.
    pub fn search(&mut self, condition: SearchCondition, current_memory: &[u8]) -> (r: &[SearchResult])
        requires
            old(self).wf(),
        ensures
            final(self).wf(),
            r@ == search_spec(condition, current_memory@, old(self).snapshot(), current_memory@.len()),
            final(self).search_results@ == r@,
            final(self).snapshot() == Some(current_memory@),
    {
        let mut results: Vec<SearchResult> = Vec::new();
        let mut i: usize = 0;
        while i < current_memory.len()
            invariant
                i <= current_memory@.len(),
                results@ == search_spec(condition, current_memory@, self.snapshot(), i as nat),
            decreases current_memory@.len() - i,
        {
            let value = current_memory[i];
            let prev = snapshot_at(&self.search_snapshot, i);
            if holds(condition, value, prev) {
                results.push(SearchResult { address: (i % 0x10000) as u16, value, previous_value: prev });
            }
            i = i + 1;
        }
        self.search_results = results;
        self.search_snapshot = Some(slice_to_vec(current_memory));
        self.search_results.as_slice()
    }

    /// Narrows the current results to those meeting `condition`, records
    /// each one's old value as its previous value and reads the new one.
    pub fn filter_search(&mut self, condition: SearchCondition, current_memory: &[u8]) -> (r: &[SearchResult])
        requires
            old(self).wf(),
        ensures
            final(self).wf(),
            r@ == filter_spec(
                condition,
                current_memory@,
                old(self).snapshot(),
                old(self).search_results@,
                old(self).search_results@.len(),
            ),
            final(self).search_results@ == r@,
            final(self).snapshot() == Some(current_memory@),
    {
        let mut kept: Vec<SearchResult> = Vec::new();
        let mut i: usize = 0;
        while i < self.search_results.len()
            invariant
                i <= self.search_results@.len(),
                self.search_results@ == old(self).search_results@,
                self.snapshot() == old(self).snapshot(),
                kept@ == filter_spec(condition, current_memory@, self.snapshot(), self.search_results@, i as nat),
            decreases self.search_results@.len() - i,
        {
            let old_result = self.search_results[i];
            let a = old_result.address as usize;
            let value = if a < current_memory.len() { current_memory[a] } else { 0 };
            let prev = snapshot_at(&self.search_snapshot, a);
            if holds(condition, value, prev) {
                kept.push(SearchResult { address: old_result.address, value, previous_value: Some(old_result.value) });
            }
            i = i + 1;
        }
        self.search_results = kept;
        self.search_snapshot = Some(slice_to_vec(current_memory));
        self.search_results.as_slice()
    }

    pub fn reset_search(&mut self)
        requires
            old(self).wf(),
        ensures
            final(self).wf(),
            final(self).snapshot() is None,
            final(self).search_results@.len() == 0,
    {
        self.search_snapshot = None;
        self.search_results = Vec::new();
    }

    pub fn get_search_results(&self) -> (r: &[SearchResult])
        ensures
            r@ == self.search_results@,
    {
        self.search_results.as_slice()
    }

    /// Registers a watchpoint and returns its id; ids count up from 1.
    pub fn add_watchpoint(&mut self, region: MemoryRegion, address: u16, label: &str) -> (r: u32)
        requires
            old(self).wf(),
            old(self).next_watchpoint_id < u32::MAX,
        ensures
            final(self).wf(),
            r == old(self).next_watchpoint_id,
            final(self).next_watchpoint_id == old(self).next_watchpoint_id + 1,
            final(self).watchpoints@.len() == old(self).watchpoints@.len() + 1,
            ids(final(self).watchpoints@) == ids(old(self).watchpoints@).push(r),
            final(self).watchpoints@.subrange(0, old(self).watchpoints@.len() as int)
                == old(self).watchpoints@,
            ({
                let w = final(self).watchpoints@.last();
                w.region == region && w.address == address && w.label@ == label@ && w.last_value == 0
            }),
    {
        let id = self.next_watchpoint_id;
        self.next_watchpoint_id = self.next_watchpoint_id + 1;
        self.watchpoints.push(Watchpoint { id, region, address, label: String::from_str(label), last_value: 0 });
        proof {
            assert(ids(self.watchpoints@) =~= ids(old(self).watchpoints@).push(id));
            assert(self.watchpoints@.subrange(0, old(self).watchpoints@.len() as int) =~= old(self).watchpoints@);
        }
        id
    }

    /// Deletes the watchpoint `id`; tells whether it existed.
    pub fn remove_watchpoint(&mut self, id: u32) -> (r: bool)
        requires
            old(self).wf(),
        ensures
            final(self).wf(),
            r == ids(old(self).watchpoints@).contains(id),
            !ids(final(self).watchpoints@).contains(id),
            forall|j: u32| j != id ==> (ids(final(self).watchpoints@).contains(j) <==> ids(old(self).watchpoints@).contains(j)),
            final(self).next_watchpoint_id == old(self).next_watchpoint_id,
    {
        let mut i: usize = 0;
        while i < self.watchpoints.len()
            invariant
                i <= self.watchpoints@.len(),
                *self == *old(self),
                old(self).wf(),
                forall|k: int| 0 <= k < i ==> #[trigger] self.watchpoints@[k].id != id,
            decreases self.watchpoints@.len() - i,
        {
            if self.watchpoints[i].id == id {
                let ghost before = self.watchpoints@;
                let _ = self.watchpoints.remove(i);
                proof {
                    assert(ids(before)[i as int] == id);
                    assert forall|j: u32| j != id implies (ids(self.watchpoints@).contains(j) <==> ids(before).contains(j)) by {
                        if ids(before).contains(j) {
                            let k = choose|k: int| 0 <= k < ids(before).len() && ids(before)[k] == j;
                            if k < i {
                                assert(ids(self.watchpoints@)[k] == j);
                            } else {
                                assert(k > i);
                                assert(ids(self.watchpoints@)[k - 1] == j);
                            }
                        }
                        if ids(self.watchpoints@).contains(j) {
                            let k = choose|k: int| 0 <= k < ids(self.watchpoints@).len() && ids(self.watchpoints@)[k] == j;
                            if k < i {
                                assert(ids(before)[k] == j);
                            } else {
                                assert(ids(before)[k + 1] == j);
                            }
                        }
                    }
                    if ids(self.watchpoints@).contains(id) {
                        let k = choose|k: int| 0 <= k < ids(self.watchpoints@).len() && ids(self.watchpoints@)[k] == id;
                        if k < i {
                            assert(self.watchpoints@[k] == before[k]);
                            assert(before[k].id < before[i as int].id);
                        } else {
                            assert(self.watchpoints@[k] == before[k + 1]);
                            assert(before[i as int].id < before[k + 1].id);
                        }
                    }
                    assert(ids(before).contains(id)) by {
                        assert(ids(before)[i as int] == id);
                    }
                    let after = self.watchpoints@;
                    assert forall|a: int, b: int| 0 <= a < b < after.len() implies #[trigger] after[a].id
                        < #[trigger] after[b].id by {
                        let a0 = if a < i { a } else { a + 1 };
                        let b0 = if b < i { b } else { b + 1 };
                        assert(after[a] == before[a0]);
                        assert(after[b] == before[b0]);
                        assert(before[a0].id < before[b0].id);
                    }
                    assert forall|a: int| 0 <= a < after.len() implies #[trigger] after[a].id
                        < self.next_watchpoint_id by {
                        let a0 = if a < i { a } else { a + 1 };
                        assert(after[a] == before[a0]);
                    }
                }
                return true;
            }
            i = i + 1;
        }
        proof {
            if ids(self.watchpoints@).contains(id) {
                let k = choose|k: int| 0 <= k < ids(self.watchpoints@).len() && ids(self.watchpoints@)[k] == id;
                assert(self.watchpoints@[k].id != id);
            }
        }
        false
    }

    /// The watchpoints in increasing id order.
    pub fn get_watchpoints(&self) -> (r: &[Watchpoint])
        ensures
            r@ == self.watchpoints@,
    {
        self.watchpoints.as_slice()
    }

    /// Records `value` as the last value seen by watchpoint `id`.
    pub fn update_watchpoint(&mut self, id: u32, value: u8)
        requires
            old(self).wf(),
        ensures
            final(self).wf(),
            ids(final(self).watchpoints@) == ids(old(self).watchpoints@),
            forall|k: int| 0 <= k < final(self).watchpoints@.len() ==> #[trigger] final(self).watchpoints@[k].last_value
                == if old(self).watchpoints@[k].id == id { value } else { old(self).watchpoints@[k].last_value },
    {
        let mut i: usize = 0;
        while i < self.watchpoints.len()
            invariant
                i <= self.watchpoints@.len(),
                *self == *old(self),
                old(self).wf(),
                forall|k: int| 0 <= k < i ==> #[trigger] self.watchpoints@[k].id != id,
            decreases self.watchpoints@.len() - i,
        {
            if self.watchpoints[i].id == id {
                let ghost before = self.watchpoints@;
                let mut w = self.watchpoints.remove(i);
                w.last_value = value;
                self.watchpoints.insert(i, w);
                proof {
                    assert(ids(self.watchpoints@) =~= ids(before));
                    assert forall|k: int| 0 <= k < self.watchpoints@.len() implies #[trigger] self.watchpoints@[k].id
                        == before[k].id by {
                        assert(ids(self.watchpoints@)[k] == ids(before)[k]);
                    }
                    assert forall|k: int| 0 <= k < self.watchpoints@.len() implies #[trigger] self.watchpoints@[k].last_value
                        == if before[k].id == id { value } else { before[k].last_value } by {
                        if k != i {
                            assert(before[k].id != id) by {
                                if k < i {
                                } else {
                                    assert(before[i as int].id < before[k].id);
                                }
                            }
                        }
                    }
                }
                return;
            }
            i = i + 1;
        }
        proof {
            assert(ids(self.watchpoints@) =~= ids(old(self).watchpoints@));
        }
    }
}


// ---------------------------------------------------------------------------
// Text output
// ---------------------------------------------------------------------------

pub open spec fn all_ascii(s: Seq<u8>) -> bool {
    forall|i: int| 0 <= i < s.len() ==> #[trigger] s[i] < 128
}

pub open spec fn as_chars(s: Seq<u8>) -> Seq<char> {
    s.map_values(|b: u8| b as char)
}

/// Relies on `String::from_utf8`: ASCII bytes are valid UTF-8, one char each.
#[verifier::external_body]
fn ascii_string(bytes: Vec<u8>) -> (r: String)
    requires
        all_ascii(bytes@),
    ensures
        r@ == as_chars(bytes@),
{
    String::from_utf8(bytes).unwrap_or_default()
}

/// Upper-case hexadecimal digit of `d < 16`.
pub open spec fn hex_char(d: int) -> u8 {
    if d < 10 {
        (48 + d) as u8
    } else {
        (55 + d) as u8
    }
}

/// `n` in upper-case hexadecimal, zero-padded to at least `w` digits.
pub open spec fn hex_seq(n: nat, w: nat) -> Seq<u8>
    decreases n + w,
{
    let rest = if n >= 16 || w > 1 {
        hex_seq(n / 16, if w > 0 { (w - 1) as nat } else { 0 })
    } else {
        Seq::empty()
    };
    rest.push(hex_char(n as int % 16))
}

proof fn lemma_hex_ascii(n: nat, w: nat)
    ensures
        all_ascii(hex_seq(n, w)),
    decreases n + w,
{
    if n >= 16 || w > 1 {
        lemma_hex_ascii(n / 16, if w > 0 { (w - 1) as nat } else { 0 });
    }
}

fn push_hex(out: &mut Vec<u8>, n: usize, w: usize)
    requires
        all_ascii(old(out)@),
    ensures
        final(out)@ == old(out)@ + hex_seq(n as nat, w as nat),
        all_ascii(final(out)@),
    decreases n + w,
{
    proof {
        lemma_hex_ascii(n as nat, w as nat);
    }
    if n >= 16 || w > 1 {
        push_hex(out, n / 16, if w > 0 { w - 1 } else { 0 });
    }
    let d = n % 16;
    let c: u8 = if d < 10 { 48 + d as u8 } else { 55 + d as u8 };
    out.push(c);
    proof {
        assert(hex_seq(n as nat, w as nat) =~= (if n >= 16 || w > 1 {
            hex_seq(n as nat / 16, if w > 0 { (w - 1) as nat } else { 0 })
        } else {
            Seq::empty()
        }).push(c));
    }
}

fn push_all(out: &mut Vec<u8>, s: &[u8])
    requires
        all_ascii(old(out)@),
        all_ascii(s@),
    ensures
        final(out)@ == old(out)@ + s@,
        all_ascii(final(out)@),
{
    let mut i: usize = 0;
    while i < s.len()
        invariant
            i <= s@.len(),
            all_ascii(s@),
            out@ == old(out)@ + s@.subrange(0, i as int),
            all_ascii(out@),
        decreases s@.len() - i,
    {
        out.push(s[i]);
        i = i + 1;
        proof {
            assert(out@ =~= old(out)@ + s@.subrange(0, i as int));
        }
    }
    proof {
        assert(s@.subrange(0, s@.len() as int) =~= s@);
    }
}

/// The ASCII column shows printable characters and `.` for the rest.
pub open spec fn printable(b: u8) -> u8 {
    if 0x20 <= b <= 0x7E {
        b
    } else {
        0x2E
    }
}

/// Hex cells `0..k` of the dump row at `addr` (three characters each, one
/// extra space after the eighth).
pub open spec fn hex_cells(mem: Seq<u8>, addr: int, end: int, k: nat) -> Seq<u8>
    decreases k,
{
    if k == 0 {
        Seq::empty()
    } else {
        let i = k - 1;
        let cell = if addr + i < end {
            hex_seq(mem[addr + i] as nat, 2).push(0x20)
        } else {
            seq![0x20u8, 0x20u8, 0x20u8]
        };
        let cell = if i == 7 { cell.push(0x20) } else { cell };
        hex_cells(mem, addr, end, (k - 1) as nat) + cell
    }
}

pub open spec fn ascii_cells(mem: Seq<u8>, addr: int, end: int, k: nat) -> Seq<u8>
    decreases k,
{
    if k == 0 {
        Seq::empty()
    } else {
        let i = k - 1;
        let prev = ascii_cells(mem, addr, end, (k - 1) as nat);
        if addr + i < end {
            prev.push(printable(mem[addr + i]))
        } else {
            prev
        }
    }
}

/// One dump row: `AAAA: ` + 16 hex cells + ` |` + ASCII + `|\n`.
pub open spec fn dump_row(mem: Seq<u8>, addr: int, end: int) -> Seq<u8> {
    hex_seq(addr as nat, 4) + seq![0x3Au8, 0x20u8] + hex_cells(mem, addr, end, 16) + seq![0x20u8, 0x7Cu8]
        + ascii_cells(mem, addr, end, 16) + seq![0x7Cu8, 0x0Au8]
}

/// The first `k` rows of a dump starting at `start`.
pub open spec fn dump_rows(mem: Seq<u8>, start: int, end: int, k: nat) -> Seq<u8>
    decreases k,
{
    if k == 0 {
        Seq::empty()
    } else {
        dump_rows(mem, start, end, (k - 1) as nat) + dump_row(mem, row_start(start, k - 1), end)
    }
}

/// Address of row `j` of a dump starting at `start`.
pub open spec fn row_start(start: int, j: int) -> int {
    start + 16 * j
}

proof fn lemma_rows(start: int, end: int, span: int, rows: int)
    requires
        span == if end > start { end - start } else { 0 },
        rows == span / 16 + if span % 16 != 0 { 1int } else { 0int },
    ensures
        rows == row_count(start, end),
        forall|j: int| 0 <= j < rows ==> #[trigger] row_start(start, j) < end,
{
    assert forall|j: int| 0 <= j < rows implies #[trigger] row_start(start, j) < end by {
        assert(16 * j < span) by (nonlinear_arith)
            requires
                0 <= j < rows,
                span >= 0,
                rows == span / 16 + if span % 16 != 0 { 1int } else { 0int },
        ;
    }
    if end > start {
        assert(rows == (span + 15) / 16) by (nonlinear_arith)
            requires
                span > 0,
                rows == span / 16 + if span % 16 != 0 { 1int } else { 0int },
        ;
    }
}

/// Rows a dump of `start..end` has.
pub open spec fn row_count(start: int, end: int) -> nat {
    if end <= start {
        0
    } else {
        ((end - start + 15) / 16) as nat
    }
}

fn push_row(out: &mut Vec<u8>, memory: &[u8], addr: usize, end: usize)
    requires
        all_ascii(old(out)@),
        addr < end <= memory@.len(),
    ensures
        final(out)@ == old(out)@ + dump_row(memory@, addr as int, end as int),
        all_ascii(final(out)@),
{
    let ghost base = out@;
    push_hex(out, addr, 4);
    out.push(0x3A);
    out.push(0x20);
    let ghost after_addr = out@;
    let mut i: usize = 0;
    while i < 16
        invariant
            i <= 16,
            addr < end <= memory@.len(),
            out@ == after_addr + hex_cells(memory@, addr as int, end as int, i as nat),
            all_ascii(out@),
        decreases 16 - i,
    {
        let ghost before = out@;
        if i < end - addr {
            proof {
                lemma_hex_ascii(memory@[addr + i] as nat, 2);
            }
            push_hex(out, memory[addr + i] as usize, 2);
            out.push(0x20);
        } else {
            out.push(0x20);
            out.push(0x20);
            out.push(0x20);
        }
        if i == 7 {
            out.push(0x20);
        }
        proof {
            assert(out@ =~= after_addr + hex_cells(memory@, addr as int, end as int, (i + 1) as nat));
        }
        i = i + 1;
    }
    out.push(0x20);
    out.push(0x7C);
    let ghost after_hex = out@;
    let mut j: usize = 0;
    while j < 16
        invariant
            j <= 16,
            addr < end <= memory@.len(),
            out@ == after_hex + ascii_cells(memory@, addr as int, end as int, j as nat),
            all_ascii(out@),
        decreases 16 - j,
    {
        if j < end - addr {
            let b = memory[addr + j];
            let c: u8 = if 0x20 <= b && b <= 0x7E { b } else { 0x2E };
            out.push(c);
        }
        proof {
            assert(out@ =~= after_hex + ascii_cells(memory@, addr as int, end as int, (j + 1) as nat));
        }
        j = j + 1;
    }
    out.push(0x7C);
    out.push(0x0A);
    proof {
        assert(out@ =~= base + dump_row(memory@, addr as int, end as int));
    }
}

// ---------------------------------------------------------------------------
// Disassembly
// ---------------------------------------------------------------------------

/// Mnemonic and length in bytes of an opcode; unknown opcodes are one-byte `???`.
pub open spec fn decode_spec(opcode: u8) -> (&'static str, usize) {
    match opcode {
        0xA9 => ("LDA #", 2),
        0xA5 => ("LDA", 2),
        0xAD => ("LDA", 3),
        0xA2 => ("LDX #", 2),
        0xA6 => ("LDX", 2),
        0xAE => ("LDX", 3),
        0xA0 => ("LDY #", 2),
        0xA4 => ("LDY", 2),
        0xAC => ("LDY", 3),
        0x85 => ("STA", 2),
        0x8D => ("STA", 3),
        0x86 => ("STX", 2),
        0x8E => ("STX", 3),
        0x84 => ("STY", 2),
        0x8C => ("STY", 3),
        0x69 => ("ADC #", 2),
        0x65 => ("ADC", 2),
        0x6D => ("ADC", 3),
        0xE9 => ("SBC #", 2),
        0xE5 => ("SBC", 2),
        0xED => ("SBC", 3),
        0xC9 => ("CMP #", 2),
        0xC5 => ("CMP", 2),
        0xCD => ("CMP", 3),
        0xE0 => ("CPX #", 2),
        0xC0 => ("CPY #", 2),
        0x29 => ("AND #", 2),
        0x09 => ("ORA #", 2),
        0x49 => ("EOR #", 2),
        0x0A => ("ASL A", 1),
        0x4A => ("LSR A", 1),
        0x2A => ("ROL A", 1),
        0x6A => ("ROR A", 1),
        0xE6 => ("INC", 2),
        0xEE => ("INC", 3),
        0xC6 => ("DEC", 2),
        0xCE => ("DEC", 3),
        0xE8 => ("INX", 1),
        0xCA => ("DEX", 1),
        0xC8 => ("INY", 1),
        0x88 => ("DEY", 1),
        0xAA => ("TAX", 1),
        0xA8 => ("TAY", 1),
        0x8A => ("TXA", 1),
        0x98 => ("TYA", 1),
        0x9A => ("TXS", 1),
        0xBA => ("TSX", 1),
        0x48 => ("PHA", 1),
        0x68 => ("PLA", 1),
        0x08 => ("PHP", 1),
        0x28 => ("PLP", 1),
        0x10 => ("BPL", 2),
        0x30 => ("BMI", 2),
        0x50 => ("BVC", 2),
        0x70 => ("BVS", 2),
        0x90 => ("BCC", 2),
        0xB0 => ("BCS", 2),
        0xD0 => ("BNE", 2),
        0xF0 => ("BEQ", 2),
        0x4C => ("JMP", 3),
        0x6C => ("JMP (", 3),
        0x20 => ("JSR", 3),
        0x60 => ("RTS", 1),
        0x40 => ("RTI", 1),
        0x18 => ("CLC", 1),
        0x38 => ("SEC", 1),
        0x58 => ("CLI", 1),
        0x78 => ("SEI", 1),
        0xB8 => ("CLV", 1),
        0xD8 => ("CLD", 1),
        0xF8 => ("SED", 1),
        0xEA => ("NOP", 1),
        0x00 => ("BRK", 1),
        0x24 => ("BIT", 2),
        0x2C => ("BIT", 3),
        _ => ("???", 1),
    }
}

/// Operand text of the instruction at `pc` of length `size`.
pub open spec fn operand_text(mem: Seq<u8>, pc: int, size: usize) -> Seq<u8> {
    if size == 2 {
        if pc + 1 < mem.len() {
            seq![0x20u8, 0x24u8] + hex_seq(mem[pc + 1] as nat, 2)
        } else {
            seq![0x20u8, 0x3Fu8, 0x3Fu8]
        }
    } else if size == 3 {
        if pc + 2 < mem.len() {
            seq![0x20u8, 0x24u8] + hex_seq(mem[pc + 2] as nat, 2) + hex_seq(mem[pc + 1] as nat, 2)
        } else {
            seq![0x20u8, 0x3Fu8, 0x3Fu8, 0x3Fu8, 0x3Fu8]
        }
    } else {
        Seq::empty()
    }
}

/// Up to `count` disassembled lines starting at index `pc` of `mem`.
pub open spec fn disassembly(mem: Seq<u8>, pc: nat, count: nat) -> Seq<(u16, Seq<char>)>
    decreases count,
{
    if count == 0 || pc >= mem.len() {
        Seq::empty()
    } else {
        let (mnemonic, size) = decode_spec(mem[pc as int]);
        seq![((pc % 0x10000) as u16, mnemonic@ + as_chars(operand_text(mem, pc as int, size)))].add(
            disassembly(mem, pc + size as nat, (count - 1) as nat),
        )
    }
}

pub open spec fn lines_view(v: Seq<(u16, String)>) -> Seq<(u16, Seq<char>)> {
    v.map_values(|e: (u16, String)| (e.0, e.1@))
}

fn decode_instruction(opcode: u8) -> (r: (&'static str, usize))
    ensures
        r == decode_spec(opcode),
        1 <= r.1 <= 3,
{
    match opcode {
        0xA9 => ("LDA #", 2),
        0xA5 => ("LDA", 2),
        0xAD => ("LDA", 3),
        0xA2 => ("LDX #", 2),
        0xA6 => ("LDX", 2),
        0xAE => ("LDX", 3),
        0xA0 => ("LDY #", 2),
        0xA4 => ("LDY", 2),
        0xAC => ("LDY", 3),
        0x85 => ("STA", 2),
        0x8D => ("STA", 3),
        0x86 => ("STX", 2),
        0x8E => ("STX", 3),
        0x84 => ("STY", 2),
        0x8C => ("STY", 3),
        0x69 => ("ADC #", 2),
        0x65 => ("ADC", 2),
        0x6D => ("ADC", 3),
        0xE9 => ("SBC #", 2),
        0xE5 => ("SBC", 2),
        0xED => ("SBC", 3),
        0xC9 => ("CMP #", 2),
        0xC5 => ("CMP", 2),
        0xCD => ("CMP", 3),
        0xE0 => ("CPX #", 2),
        0xC0 => ("CPY #", 2),
        0x29 => ("AND #", 2),
        0x09 => ("ORA #", 2),
        0x49 => ("EOR #", 2),
        0x0A => ("ASL A", 1),
        0x4A => ("LSR A", 1),
        0x2A => ("ROL A", 1),
        0x6A => ("ROR A", 1),
        0xE6 => ("INC", 2),
        0xEE => ("INC", 3),
        0xC6 => ("DEC", 2),
        0xCE => ("DEC", 3),
        0xE8 => ("INX", 1),
        0xCA => ("DEX", 1),
        0xC8 => ("INY", 1),
        0x88 => ("DEY", 1),
        0xAA => ("TAX", 1),
        0xA8 => ("TAY", 1),
        0x8A => ("TXA", 1),
        0x98 => ("TYA", 1),
        0x9A => ("TXS", 1),
        0xBA => ("TSX", 1),
        0x48 => ("PHA", 1),
        0x68 => ("PLA", 1),
        0x08 => ("PHP", 1),
        0x28 => ("PLP", 1),
        0x10 => ("BPL", 2),
        0x30 => ("BMI", 2),
        0x50 => ("BVC", 2),
        0x70 => ("BVS", 2),
        0x90 => ("BCC", 2),
        0xB0 => ("BCS", 2),
        0xD0 => ("BNE", 2),
        0xF0 => ("BEQ", 2),
        0x4C => ("JMP", 3),
        0x6C => ("JMP (", 3),
        0x20 => ("JSR", 3),
        0x60 => ("RTS", 1),
        0x40 => ("RTI", 1),
        0x18 => ("CLC", 1),
        0x38 => ("SEC", 1),
        0x58 => ("CLI", 1),
        0x78 => ("SEI", 1),
        0xB8 => ("CLV", 1),
        0xD8 => ("CLD", 1),
        0xF8 => ("SED", 1),
        0xEA => ("NOP", 1),
        0x00 => ("BRK", 1),
        0x24 => ("BIT", 2),
        0x2C => ("BIT", 3),
        _ => ("???", 1),
    }
}

impl MemoryEditor {
    /// Classic hex dump of `memory[start..start + length]` (clipped to the
    /// memory), sixteen bytes a row with address, hex cells and ASCII.
    pub fn hex_dump(memory: &[u8], start: usize, length: usize) -> (r: String)
        requires
            start + length <= usize::MAX,
        ensures
            ({
                let end = if start + length < memory@.len() { start + length } else { memory@.len() as int };
                r@ == as_chars(dump_rows(memory@, start as int, end, row_count(start as int, end)))
            }),
    {
        let end = if start + length < memory.len() { start + length } else { memory.len() };
        let mut out: Vec<u8> = Vec::new();
        let span = if end > start { end - start } else { 0 };
        let rows = span / 16 + if span % 16 != 0 { 1 } else { 0 };
        proof {
            lemma_rows(start as int, end as int, span as int, rows as int);
        }
        let mut addr = start;
        let mut k: usize = 0;
        while k < rows
            invariant
                end <= memory@.len(),
                k <= rows,
                rows == row_count(start as int, end as int),
                forall|j: int| 0 <= j < rows ==> #[trigger] row_start(start as int, j) < end,
                k < rows ==> addr == row_start(start as int, k as int),
                out@ == dump_rows(memory@, start as int, end as int, k as nat),
                all_ascii(out@),
            decreases rows - k,
        {
            assert(addr < end);
            push_row(&mut out, memory, addr, end);
            k = k + 1;
            if k < rows {
                assert(row_start(start as int, k as int) < end);
                addr = addr + 16;
            }
        }
        ascii_string(out)
    }

    /// Disassembles up to `count` instructions of `memory` from index `start`,
    /// stopping at its end.
    pub fn disassemble(memory: &[u8], start: u16, count: usize) -> (r: Vec<(u16, String)>)
        ensures
            lines_view(r@) == disassembly(memory@, start as nat, count as nat),
    {
        let mut result: Vec<(u16, String)> = Vec::new();
        let mut pc: usize = start as usize;
        let mut n: usize = 0;
        while n < count && pc < memory.len()
            invariant
                n <= count,
                lines_view(result@) + disassembly(memory@, pc as nat, (count - n) as nat)
                    == disassembly(memory@, start as nat, count as nat),
            decreases count - n,
        {
            let opcode = memory[pc];
            let (mnemonic, size) = decode_instruction(opcode);
            let mut bytes: Vec<u8> = Vec::new();
            if size == 2 {
                if pc + 1 < memory.len() {
                    bytes.push(0x20);
                    bytes.push(0x24);
                    push_hex(&mut bytes, memory[pc + 1] as usize, 2);
                } else {
                    bytes.push(0x20);
                    bytes.push(0x3F);
                    bytes.push(0x3F);
                }
            } else if size == 3 {
                if memory.len() - pc > 2 {
                    bytes.push(0x20);
                    bytes.push(0x24);
                    push_hex(&mut bytes, memory[pc + 2] as usize, 2);
                    push_hex(&mut bytes, memory[pc + 1] as usize, 2);
                } else {
                    bytes.push(0x20);
                    bytes.push(0x3F);
                    bytes.push(0x3F);
                    bytes.push(0x3F);
                    bytes.push(0x3F);
                }
            }
            proof {
                assert(bytes@ =~= operand_text(memory@, pc as int, size));
            }
            let operand = ascii_string(bytes);
            let mut text = String::from_str(mnemonic);
            text.append(operand.as_str());
            let ghost before = result@;
            result.push(((pc % 0x10000) as u16, text));
            proof {
                assert(lines_view(result@) =~= lines_view(before).push(((pc % 0x10000) as u16, text@)));
                assert(disassembly(memory@, pc as nat, (count - n) as nat) =~= seq![
                    ((pc % 0x10000) as u16, text@),
                ].add(disassembly(memory@, (pc + size) as nat, (count - n - 1) as nat)));
                assert(lines_view(result@) + disassembly(memory@, (pc + size) as nat, (count - (n + 1)) as nat)
                    =~= lines_view(before) + disassembly(memory@, pc as nat, (count - n) as nat));
            }
            if memory.len() - pc >= size {
                pc = pc + size;
            } else {
                proof {
                    assert(disassembly(memory@, (pc + size) as nat, (count - (n + 1)) as nat) =~= Seq::empty());
                    assert(disassembly(memory@, memory@.len() as nat, (count - (n + 1)) as nat) =~= Seq::empty());
                }
                pc = memory.len();
            }
            n = n + 1;
        }
        proof {
            if n < count {
                assert(pc >= memory@.len());
                assert(disassembly(memory@, pc as nat, (count - n) as nat) =~= Seq::empty());
            } else {
                assert(disassembly(memory@, pc as nat, 0) =~= Seq::empty());
            }
            assert(lines_view(result@) + Seq::<(u16, Seq<char>)>::empty() =~= lines_view(result@));
        }
        result
    }
}


// ---------------------------------------------------------------------------
// Cheat codes
// ---------------------------------------------------------------------------

/// Upper-case form of a string, as `str::to_uppercase` gives it.
pub uninterp spec fn upper_of(s: Seq<char>) -> Seq<char>;

/// Relies on `str::to_uppercase`: the result depends on the characters alone.
#[verifier::external_body]
fn uppercase(s: &str) -> (r: String)
    ensures
        r@ == upper_of(s@),
{
    s.to_uppercase()
}

/// Value of a Game Genie letter.
pub open spec fn genie_value(c: char) -> Option<u8> {
    if c == 'A' {
        Some(0u8)
    } else if c == 'P' {
        Some(1u8)
    } else if c == 'Z' {
        Some(2u8)
    } else if c == 'L' {
        Some(3u8)
    } else if c == 'G' {
        Some(4u8)
    } else if c == 'I' {
        Some(5u8)
    } else if c == 'T' {
        Some(6u8)
    } else if c == 'Y' {
        Some(7u8)
    } else if c == 'E' {
        Some(8u8)
    } else if c == 'O' {
        Some(9u8)
    } else if c == 'X' {
        Some(10u8)
    } else if c == 'U' {
        Some(11u8)
    } else if c == 'K' {
        Some(12u8)
    } else if c == 'S' {
        Some(13u8)
    } else if c == 'V' {
        Some(14u8)
    } else if c == 'N' {
        Some(15u8)
    } else {
        None
    }
}

/// The code without its dashes.
pub open spec fn without_dashes(s: Seq<char>) -> Seq<char>
    decreases s.len(),
{
    if s.len() == 0 {
        s
    } else {
        let rest = without_dashes(s.drop_last());
        if s.last() == '-' {
            rest
        } else {
            rest.push(s.last())
        }
    }
}

pub open spec fn genie_nibbles(s: Seq<char>) -> Seq<u8> {
    s.map_values(|c: char| genie_value(c)->0)
}

pub open spec fn genie_address(n: Seq<u8>) -> u16 {
    (0x8000u16 | (((n[3] & 0x7) as u16) << 12u16) | (((n[5] & 0x7) as u16) << 8u16) | (((n[4] & 0x8)
        as u16) << 8u16) | (((n[2] & 0x7) as u16) << 4u16) | (((n[1] & 0x8) as u16) << 4u16) | ((n[4]
        & 0x7) as u16) | ((n[3] & 0x8) as u16))
}

/// The value byte. Its bit 3 comes from the sixth letter in a six-letter
/// code and from the eighth in an eight-letter one.
pub open spec fn genie_data(n: Seq<u8>) -> u8 {
    (((n[0] & 0x8) << 4u8) | ((n[1] & 0x7) << 4u8) | (n[0] & 0x7) | (if n.len() == 8 {
        n[7] & 0x8
    } else {
        n[5] & 0x8
    }))
}

/// The compare byte of an eight-letter code.
pub open spec fn genie_compare(n: Seq<u8>) -> u8 {
    ((n[7] & 0x7) << 4u8) | ((n[6] & 0x8) << 4u8) | (n[6] & 0x7) | (n[5] & 0x8)
}

/// A Game Genie code is accepted when, without dashes, it has six or eight
/// characters, all from `APZLGITYEOXUKSVN`.
pub open spec fn genie_valid(s: Seq<char>) -> bool {
    let t = without_dashes(s);
    (t.len() == 6 || t.len() == 8) && forall|i: int| 0 <= i < t.len() ==> #[trigger] genie_value(t[i]) is Some
}

/// Hex digit value of a character.
pub open spec fn hex_value(c: char) -> Option<nat> {
    if '0' <= c <= '9' {
        Some((c as nat - '0' as nat) as nat)
    } else if 'a' <= c <= 'f' {
        Some((c as nat - 'a' as nat + 10) as nat)
    } else if 'A' <= c <= 'F' {
        Some((c as nat - 'A' as nat + 10) as nat)
    } else {
        None
    }
}

pub open spec fn all_hex(d: Seq<char>) -> bool {
    forall|i: int| 0 <= i < d.len() ==> #[trigger] hex_value(d[i]) is Some
}

pub open spec fn hex_number(d: Seq<char>) -> nat
    decreases d.len(),
{
    if d.len() == 0 {
        0
    } else {
        hex_number(d.drop_last()) * 16 + hex_value(d.last())->0
    }
}

/// Unsigned hexadecimal as `from_str_radix(s, 16)` reads it: an optional
/// `+`, then at least one digit, the value at most `max`.
pub open spec fn parse_hex(s: Seq<char>, max: nat) -> Option<nat> {
    let d = if s.len() > 0 && s[0] == '+' { s.skip(1) } else { s };
    if d.len() == 0 || !all_hex(d) || hex_number(d) > max {
        None
    } else {
        Some(hex_number(d))
    }
}

pub open spec fn colon_count(s: Seq<char>) -> nat
    decreases s.len(),
{
    if s.len() == 0 {
        0
    } else {
        colon_count(s.drop_last()) + if s.last() == ':' { 1nat } else { 0nat }
    }
}

/// `AAAA:VV` form: exactly one colon, a 16-bit address before it and a byte after it.
pub open spec fn raw_parts(s: Seq<char>) -> Option<(u16, u8)> {
    if colon_count(s) != 1 {
        None
    } else {
        let k = choose|k: int| 0 <= k < s.len() && s[k] == ':';
        match (parse_hex(s.subrange(0, k), 0xFFFF), parse_hex(s.subrange(k + 1, s.len() as int), 0xFF)) {
            (Some(a), Some(v)) => Some((a as u16, v as u8)),
            _ => None,
        }
    }
}

fn genie_lookup(c: char) -> (r: Option<(u8, u8)>)
    ensures
        r is None <==> genie_value(c) is None,
        r matches Some((n, b)) ==> genie_value(c) == Some(n) && b as char == c && b < 128,
{
    match c {
        'A' => Some((0, 0x41)),
        'P' => Some((1, 0x50)),
        'Z' => Some((2, 0x5A)),
        'L' => Some((3, 0x4C)),
        'G' => Some((4, 0x47)),
        'I' => Some((5, 0x49)),
        'T' => Some((6, 0x54)),
        'Y' => Some((7, 0x59)),
        'E' => Some((8, 0x45)),
        'O' => Some((9, 0x4F)),
        'X' => Some((10, 0x58)),
        'U' => Some((11, 0x55)),
        'K' => Some((12, 0x4B)),
        'S' => Some((13, 0x53)),
        'V' => Some((14, 0x56)),
        'N' => Some((15, 0x4E)),
        _ => None,
    }
}

fn hex_digit_value(c: char) -> (r: Option<u32>)
    ensures
        r matches Some(v) ==> hex_value(c) == Some(v as nat),
        r is None ==> hex_value(c) is None,
        r matches Some(v) ==> v < 16,
{
    if '0' <= c && c <= '9' {
        Some((c as u32) - ('0' as u32))
    } else if 'a' <= c && c <= 'f' {
        Some((c as u32) - ('a' as u32) + 10)
    } else if 'A' <= c && c <= 'F' {
        Some((c as u32) - ('A' as u32) + 10)
    } else {
        None
    }
}

proof fn lemma_without_dashes_push(s: Seq<char>, c: char)
    ensures
        without_dashes(s.push(c)) == if c == '-' { without_dashes(s) } else { without_dashes(s).push(c) },
{
    assert(s.push(c).drop_last() =~= s);
}

proof fn lemma_colon_count_push(s: Seq<char>, c: char)
    ensures
        colon_count(s.push(c)) == colon_count(s) + if c == ':' { 1nat } else { 0nat },
{
    assert(s.push(c).drop_last() =~= s);
}

proof fn lemma_hex_number_push(d: Seq<char>, c: char)
    ensures
        hex_number(d.push(c)) == hex_number(d) * 16 + hex_value(c)->0,
{
    assert(d.push(c).drop_last() =~= d);
}

/// Reads `s[from..to]` as `from_str_radix(.., 16)` would, bounded by `max`.
fn parse_hex_range(s: &str, from: usize, to: usize, max: u32) -> (r: Option<u32>)
    requires
        from <= to <= s@.len(),
        max <= 0xFFFF,
    ensures
        r matches Some(v) ==> parse_hex(s@.subrange(from as int, to as int), max as nat) == Some(v as nat),
        r is None ==> parse_hex(s@.subrange(from as int, to as int), max as nat) is None,
{
    let ghost part = s@.subrange(from as int, to as int);
    let mut i = from;
    if i < to && s.get_char(i) == '+' {
        i = i + 1;
    }
    let ghost d = if part.len() > 0 && part[0] == '+' { part.skip(1) } else { part };
    proof {
        assert(d =~= s@.subrange(i as int, to as int));
    }
    if i == to {
        return None;
    }
    let first = i;
    let mut v: u32 = 0;
    let mut over = false;
    while i < to
        invariant
            from <= first <= i <= to <= s@.len(),
            max <= 0xFFFF,
            first < to,
            part == s@.subrange(from as int, to as int),
            d == if part.len() > 0 && part[0] == '+' { part.skip(1) } else { part },
            d =~= s@.subrange(first as int, to as int),
            all_hex(s@.subrange(first as int, i as int)),
            over == (hex_number(s@.subrange(first as int, i as int)) > max),
            !over ==> v == hex_number(s@.subrange(first as int, i as int)),
        decreases to - i,
    {
        let c = s.get_char(i);
        let dv = hex_digit_value(c);
        match dv {
            None => {
                proof {
                    assert(d[i - first] == c);
                    assert(hex_value(d[i - first]) is None);
                    assert(!all_hex(d));
                    assert(part == s@.subrange(from as int, to as int));
                    assert(parse_hex(part, max as nat) is None);
                }
                return None;
            },
            Some(x) => {
                proof {
                    assert(s@.subrange(first as int, i + 1) =~= s@.subrange(first as int, i as int).push(c));
                    lemma_hex_number_push(s@.subrange(first as int, i as int), c);
                }
                if !over {
                    v = v * 16 + x;
                    if v > max {
                        over = true;
                    }
                }
            },
        }
        i = i + 1;
    }
    if over {
        None
    } else {
        Some(v)
    }
}

impl CheatCode {
    /// Decodes a Game Genie code that is already upper case: dashes are
    /// ignored, six letters give address and value, eight add a compare byte.
    /// The description is the code without dashes.
    pub fn decode_game_genie(code: &str) -> (r: Option<CheatCode>)
        ensures
            r is Some <==> genie_valid(code@),
            r matches Some(c) ==> {
                let t = without_dashes(code@);
                let n = genie_nibbles(t);
                &&& c.address == genie_address(n)
                &&& c.value == genie_data(n)
                &&& c.compare == if t.len() == 8 { Some(genie_compare(n)) } else { None }
                &&& c.enabled
                &&& c.description@ == t
            },
    {
        let len = code.unicode_len();
        let mut nibbles: Vec<u8> = Vec::new();
        let mut letters: Vec<u8> = Vec::new();
        let mut i: usize = 0;
        let mut bad = false;
        while i < len
            invariant
                i <= len == code@.len(),
                bad == exists|j: int|
                    0 <= j < without_dashes(code@.subrange(0, i as int)).len() && (#[trigger] genie_value(
                        without_dashes(code@.subrange(0, i as int))[j],
                    )) is None,
                !bad ==> as_chars(letters@) == without_dashes(code@.subrange(0, i as int)),
                !bad ==> nibbles@ == genie_nibbles(without_dashes(code@.subrange(0, i as int))),
                all_ascii(letters@),
            decreases len - i,
        {
            let c = code.get_char(i);
            let ghost prev = without_dashes(code@.subrange(0, i as int));
            proof {
                assert(code@.subrange(0, i + 1) =~= code@.subrange(0, i as int).push(c));
                lemma_without_dashes_push(code@.subrange(0, i as int), c);
            }
            let ghost next = without_dashes(code@.subrange(0, i + 1));
            if c != '-' {
                match genie_lookup(c) {
                    Some((n, b)) => {
                        if !bad {
                            nibbles.push(n);
                            letters.push(b);
                            proof {
                                assert(as_chars(letters@) =~= next);
                                assert(nibbles@ =~= genie_nibbles(next));
                            }
                        }
                    },
                    None => {
                        bad = true;
                    },
                }
                proof {
                    assert(next =~= prev.push(c));
                    if bad {
                        if genie_value(c) is None {
                            assert(genie_value(next[prev.len() as int]) is None);
                        } else {
                            let j = choose|j: int| 0 <= j < prev.len() && (#[trigger] genie_value(prev[j])) is None;
                            assert(next[j] == prev[j]);
                        }
                    } else {
                        assert forall|j: int| 0 <= j < next.len() implies !((#[trigger] genie_value(next[j])) is None) by {
                            if j < prev.len() {
                                assert(next[j] == prev[j]);
                            }
                        }
                    }
                }
            }
            i = i + 1;
        }
        proof {
            assert(code@.subrange(0, len as int) =~= code@);
        }
        if bad {
            return None;
        }
        let count = nibbles.len();
        if count != 6 && count != 8 {
            return None;
        }
        let n = &nibbles;
        let address: u16 = 0x8000u16 | (((n[3] & 0x7) as u16) << 12u16) | (((n[5] & 0x7) as u16) << 8u16)
            | (((n[4] & 0x8) as u16) << 8u16) | (((n[2] & 0x7) as u16) << 4u16) | (((n[1] & 0x8) as u16)
            << 4u16) | ((n[4] & 0x7) as u16) | ((n[3] & 0x8) as u16);
        let value: u8 = ((n[0] & 0x8) << 4u8) | ((n[1] & 0x7) << 4u8) | (n[0] & 0x7) | (if count == 8 {
            n[7] & 0x8
        } else {
            n[5] & 0x8
        });
        let compare = if count == 8 {
            Some(((n[7] & 0x7) << 4u8) | ((n[6] & 0x8) << 4u8) | (n[6] & 0x7) | (n[5] & 0x8))
        } else {
            None
        };
        Some(CheatCode { address, value, compare, enabled: true, description: ascii_string(letters) })
    }

    /// Decodes a Game Genie code, letters in either case.
    pub fn from_game_genie(code: &str) -> (r: Option<CheatCode>)
        ensures
            r is Some <==> genie_valid(upper_of(code@)),
            r matches Some(c) ==> {
                let t = without_dashes(upper_of(code@));
                let n = genie_nibbles(t);
                &&& c.address == genie_address(n)
                &&& c.value == genie_data(n)
                &&& c.compare == if t.len() == 8 { Some(genie_compare(n)) } else { None }
                &&& c.description@ == t
            },
    {
        let upper = uppercase(code);
        CheatCode::decode_game_genie(upper.as_str())
    }

    /// Decodes an `AAAA:VV` code (hexadecimal address and value).
    pub fn from_raw(code: &str) -> (r: Option<CheatCode>)
        ensures
            r is Some <==> raw_parts(code@) is Some,
            r matches Some(c) ==> raw_parts(code@) == Some((c.address, c.value)) && c.compare is None
                && c.enabled && c.description@ == code@,
    {
        let len = code.unicode_len();
        let mut colons: usize = 0;
        let mut at: usize = 0;
        let mut i: usize = 0;
        while i < len
            invariant
                i <= len == code@.len(),
                colons == if colon_count(code@.subrange(0, i as int)) < 2 {
                    colon_count(code@.subrange(0, i as int))
                } else {
                    2
                },
                colons >= 1 ==> at < i && code@[at as int] == ':',
                colons == 1 ==> forall|j: int| 0 <= j < i && j != at ==> #[trigger] code@[j] != ':',
                colons == 0 ==> forall|j: int| 0 <= j < i ==> #[trigger] code@[j] != ':',
            decreases len - i,
        {
            let c = code.get_char(i);
            proof {
                assert(code@.subrange(0, i + 1) =~= code@.subrange(0, i as int).push(c));
                lemma_colon_count_push(code@.subrange(0, i as int), c);
            }
            if c == ':' {
                if colons == 0 {
                    at = i;
                }
                colons = if colons < 2 { colons + 1 } else { 2 };
            }
            i = i + 1;
        }
        proof {
            assert(code@.subrange(0, len as int) =~= code@);
        }
        if colons != 1 {
            return None;
        }
        proof {
            let k = choose|k: int| 0 <= k < code@.len() && code@[k] == ':';
            assert(k == at);
        }
        let address = parse_hex_range(code, 0, at, 0xFFFF);
        let value = parse_hex_range(code, at + 1, len, 0xFF);
        match (address, value) {
            (Some(a), Some(v)) => Some(CheatCode {
                address: a as u16,
                value: v as u8,
                compare: None,
                enabled: true,
                description: String::from_str(code),
            }),
            _ => None,
        }
    }
}


impl Default for MemoryEditor {
    fn default() -> (r: MemoryEditor)
        ensures
            r.wf(),
            r.next_watchpoint_id == 1,
    {
        MemoryEditor::new()
    }
}

} // verus!
