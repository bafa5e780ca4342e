use vstd::prelude::*;
use vstd::string::{StrSliceExecFns, StringExecFns};

verus! {

/// The charging status that the kernel reports for a power supply.
#[derive(Clone, Copy, Debug, PartialEq, Eq, Structural)]
pub enum PowerSupplyStatus {
    Charging,
    Discharging,
    Full,
    Unknown,
}

/// The charge as a whole percent of the full energy, at most 100.
pub open spec fn charge_percent(energy_now: u64, energy_full: u64) -> nat
    recommends
        energy_full > 0,
{
    let p = (energy_now as nat * 100) / energy_full as nat;
    if p > 100 {
        100
    } else {
        p
    }
}

/// A power supply's uevent record: its name, status and energy counters.
#[derive(Clone, Debug)]
pub struct UEvent {
    name: String,
    status: PowerSupplyStatus,
    energy_full: u64,
    energy_now: u64,
}

impl UEvent {
    pub closed spec fn spec_name(&self) -> Seq<char> {
        self.name@
    }

    pub closed spec fn spec_status(&self) -> PowerSupplyStatus {
        self.status
    }

    pub closed spec fn spec_energy_full(&self) -> u64 {
        self.energy_full
    }

    pub closed spec fn spec_energy_now(&self) -> u64 {
        self.energy_now
    }

    /// A record with the given fields.
    pub fn new(name: String, status: PowerSupplyStatus, energy_full: u64, energy_now: u64) -> (r:
        UEvent)
        ensures
            r.spec_name() == name@,
            r.spec_status() == status,
            r.spec_energy_full() == energy_full,
            r.spec_energy_now() == energy_now,
    {
        UEvent { name, status, energy_full, energy_now }
    }

    /// The supply's name.
    pub fn name(&self) -> (r: &String)
        ensures
            r@ == self.spec_name(),
    {
        &self.name
    }

    /// The energy when full.
    pub fn energy_full(&self) -> (r: u64)
        ensures
            r == self.spec_energy_full(),
    {
        self.energy_full
    }

    /// Whether the supply is discharging.
    pub fn is_discharging(&self) -> (r: bool)
        ensures
            r == (self.spec_status() == PowerSupplyStatus::Discharging),
    {
        match self.status {
            PowerSupplyStatus::Discharging => true,
            _ => false,
        }
    }

    /// The charge as a whole percent of the full energy, rounded down and
    /// capped at 100.
    pub fn percentage(&self) -> (r: u64)
        requires
            self.spec_energy_full() > 0,
        ensures
            r == charge_percent(self.spec_energy_now(), self.spec_energy_full()),
            r <= 100,
    {
        let p: u128 = (self.energy_now as u128) * 100 / (self.energy_full as u128);
        if p > 100 {
            100
        } else {
            p as u64
        }
    }
}

/// The first index in `from..to` where `s` holds `c`, or `to` if none does.
pub open spec fn find_in(s: Seq<char>, c: char, from: int, to: int) -> int
    decreases to - from,
{
    if from >= to {
        to
    } else if s[from] == c {
        from
    } else {
        find_in(s, c, from + 1, to)
    }
}

/// The lines of `s` from index `i` on: pieces between `\n` characters, with a
/// `\r` before each `\n` dropped; an empty piece after the last `\n` is no
/// line.
pub open spec fn lines_from(s: Seq<char>, i: int) -> Seq<Seq<char>>
    decreases s.len() - i,
{
    if i < 0 || i >= s.len() {
        Seq::empty()
    } else {
        let e = find_in(s, '\n', i, s.len() as int);
        let end = if e < s.len() && e > i && s[e - 1] == '\r' {
            e - 1
        } else {
            e
        };
        seq![s.subrange(i, end)] + lines_from(s, if i <= e < s.len() { e + 1 } else { s.len() as int })
    }
}

/// A line cut at its first `=` into key and value, if it has one.
pub open spec fn split_pair(line: Seq<char>) -> Option<(Seq<char>, Seq<char>)> {
    let k = find_in(line, '=', 0, line.len() as int);
    if k < line.len() {
        Some((line.take(k), line.skip(k + 1)))
    } else {
        None
    }
}

/// The `KEY=value` pairs of a uevent text, one per line; none if a line has
/// no `=`.
pub open spec fn pairs_of(s: Seq<char>) -> Option<Seq<(Seq<char>, Seq<char>)>> {
    let ls = lines_from(s, 0);
    if forall|i: int| 0 <= i < ls.len() ==> (#[trigger] split_pair(ls[i])) is Some {
        Some(ls.map_values(|l: Seq<char>| split_pair(l)->0))
    } else {
        None
    }
}

proof fn lemma_find_in_bounds(s: Seq<char>, c: char, from: int, to: int)
    requires
        from <= to,
    ensures
        from <= find_in(s, c, from, to) <= to,
    decreases to - from,
{
    if from < to && s[from] != c {
        lemma_find_in_bounds(s, c, from + 1, to);
    }
}

fn find_char(s: &str, c: char, from: usize, to: usize) -> (r: usize)
    requires
        from <= to <= s@.len(),
    ensures
        r == find_in(s@, c, from as int, to as int),
{
    let mut i = from;
    while i < to
        invariant
            from <= i <= to <= s@.len(),
            find_in(s@, c, from as int, to as int) == find_in(s@, c, i as int, to as int),
        decreases to - i,
    {
        if s.get_char(i) == c {
            return i;
        }
        i = i + 1;
    }
    i
}

/// Cuts a uevent text into its `KEY=value` pairs, one per line, each line
/// cut at its first `=`; `None` if a line has no `=`.
pub fn uevent_pairs(s: &str) -> (r: Option<Vec<(String, String)>>)
    ensures
        match pairs_of(s@) {
            None => r is None,
            Some(ps) => r is Some && r->0@.len() == ps.len() && forall|j: int|
                0 <= j < ps.len() ==> (#[trigger] r->0@[j]).0@ == ps[j].0 && r->0@[j].1@
                    == ps[j].1,
        },
{
    let n = s.unicode_len();
    let mut out: Vec<(String, String)> = Vec::new();
    let mut i: usize = 0;
    let ghost mut done: Seq<Seq<char>> = Seq::empty();
    while i < n
        invariant
            n == s@.len(),
            i <= n,
            lines_from(s@, 0) == done + lines_from(s@, i as int),
            out@.len() == done.len(),
            forall|j: int|
                0 <= j < done.len() ==> (#[trigger] split_pair(done[j])) is Some && out@[j].0@
                    == (split_pair(done[j])->0).0 && out@[j].1@ == (split_pair(done[j])->0).1,
        decreases n - i,
    {
        let e = find_char(s, '\n', i, n);
        proof {
            lemma_find_in_bounds(s@, '\n', i as int, n as int);
        }
        let end = if e < n && e > i && s.get_char(e - 1) == '\r' {
            e - 1
        } else {
            e
        };
        let line = s.substring_char(i, end);
        let ghost rest = lines_from(s@, if e < n { e + 1 } else { n as int });
        assert(lines_from(s@, i as int) == seq![line@] + rest);
        let k = find_char(line, '=', 0, line.unicode_len());
        proof {
            lemma_find_in_bounds(line@, '=', 0, line@.len() as int);
        }
        if k == line.unicode_len() {
            proof {
                let ls = lines_from(s@, 0);
                assert(ls[done.len() as int] == line@);
                assert(split_pair(ls[done.len() as int]) is None);
            }
            return None;
        }
        let key = String::from_str(line.substring_char(0, k));
        let value = String::from_str(line.substring_char(k + 1, line.unicode_len()));
        proof {
            assert(key@ =~= line@.take(k as int));
            assert(value@ =~= line@.skip(k + 1));
            done = done.push(line@);
            assert(lines_from(s@, 0) =~= done + rest);
        }
        out.push((key, value));
        i = if e < n {
            e + 1
        } else {
            n
        };
    }
    proof {
        let ls = lines_from(s@, 0);
        assert(lines_from(s@, i as int) =~= Seq::<Seq<char>>::empty());
        assert(ls =~= done);
        assert forall|j: int| 0 <= j < ls.len() implies (#[trigger] split_pair(ls[j])) is Some by {
        }
    }
    Some(out)
}

} // verus!
