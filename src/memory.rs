//! The in-memory reference backend.
//!
//! It performs no validation and accepts every name; registering a name
//! that is already present replaces that entry (last registration wins), so
//! names stay unique within a storage. Counters and gauges are the atomic
//! cells of `mock`; histogram handles stay with their owner, and the storage
//! records only their identity.
//!
//! Rendering first reads every instrument once (a snapshot) and then turns
//! the snapshot into text; the text is a function of the snapshot alone.

use crate::metrics::{CounterTrait, GaugeTrait};
use crate::mock::{MockCounter, MockGauge};
use crate::registry::MetricBackend;
use crate::renderer::{MetricsRenderer, RenderedMetrics};
use std::marker::PhantomData;
use vstd::prelude::*;
use vstd::string::{StrSliceExecFns, StringExecFns};
use vstd::utf8::encode_utf8;

verus! {

// ---------------------------------------------------------------------------
// Decimal text of integers
// ---------------------------------------------------------------------------

/// The character of decimal digit `d` (0 to 9).
pub open spec fn digit_char(d: nat) -> char {
    if d == 0 {
        '0'
    } else if d == 1 {
        '1'
    } else if d == 2 {
        '2'
    } else if d == 3 {
        '3'
    } else if d == 4 {
        '4'
    } else if d == 5 {
        '5'
    } else if d == 6 {
        '6'
    } else if d == 7 {
        '7'
    } else if d == 8 {
        '8'
    } else {
        '9'
    }
}

/// The decimal digits of `n`, most significant first, without leading zeros.
pub open spec fn decimal(n: nat) -> Seq<char>
    decreases n,
{
    if n < 10 {
        seq![digit_char(n)]
    } else {
        decimal(n / 10).push(digit_char(n % 10))
    }
}

/// The decimal text of `v`, with a leading `-` when it is negative.
pub open spec fn signed_decimal(v: int) -> Seq<char> {
    if v < 0 {
        seq!['-'] + decimal((-v) as nat)
    } else {
        decimal(v as nat)
    }
}

/// The one-character text of decimal digit `d`.
fn digit_str(d: u64) -> (r: &'static str)
    requires
        d < 10,
    ensures
        r@ == seq![digit_char(d as nat)],
{
    proof {
        reveal_strlit("0");
        reveal_strlit("1");
        reveal_strlit("2");
        reveal_strlit("3");
        reveal_strlit("4");
        reveal_strlit("5");
        reveal_strlit("6");
        reveal_strlit("7");
        reveal_strlit("8");
        reveal_strlit("9");
    }
    match d {
        0 => "0",
        1 => "1",
        2 => "2",
        3 => "3",
        4 => "4",
        5 => "5",
        6 => "6",
        7 => "7",
        8 => "8",
        _ => "9",
    }
}

/// Append the decimal digits of `n` to `text`.
fn append_decimal(text: &mut String, n: u64)
    ensures
        final(text)@ == old(text)@ + decimal(n as nat),
    decreases n,
{
    if n >= 10 {
        append_decimal(text, n / 10);
    }
    let ghost before = text@;
    text.append(digit_str(n % 10));
    assert(text@ =~= old(text)@ + decimal(n as nat)) by {
        if n >= 10 {
            assert(before =~= old(text)@ + decimal((n / 10) as nat));
        }
    }
}

/// The decimal text of `n`.
fn u64_text(n: u64) -> (r: String)
    ensures
        r@ == decimal(n as nat),
{
    let mut text = String::new();
    append_decimal(&mut text, n);
    assert(text@ =~= decimal(n as nat));
    text
}

/// The decimal text of `v`, after a `-` when it is negative.
fn i64_text(v: i64) -> (r: String)
    ensures
        r@ == signed_decimal(v as int),
{
    let mut text = String::new();
    if v < 0 {
        text.append("-");
        let magnitude: u64 = (0i128 - v as i128) as u64;
        append_decimal(&mut text, magnitude);
        proof {
            reveal_strlit("-");
        }
        assert(text@ =~= signed_decimal(v as int));
    } else {
        append_decimal(&mut text, v as u64);
        assert(text@ =~= signed_decimal(v as int));
    }
    text
}

// ---------------------------------------------------------------------------
// Snapshots and their text
// ---------------------------------------------------------------------------

/// What one instrument read at rendering time.
#[derive(Clone, Copy, Debug, PartialEq, Eq)]
pub enum Reading {
    /// A counter and its value.
    Counter(u64),
    /// A gauge and its value.
    Gauge(i64),
    /// A histogram, whose state its owner keeps.
    Histogram,
}

/// One rendered line group: an instrument's identity and its reading.
pub struct Sample {
    /// The instrument's name.
    pub name: String,
    /// The instrument's help text.
    pub help: String,
    /// What the instrument read.
    pub reading: Reading,
}

/// The type word of a reading.
pub open spec fn kind_word(r: Reading) -> Seq<char> {
    match r {
        Reading::Counter(_) => "counter"@,
        Reading::Gauge(_) => "gauge"@,
        Reading::Histogram => "histogram"@,
    }
}

/// The value line of a reading: `<name> <value>`, none for a histogram.
pub open spec fn value_line(name: Seq<char>, r: Reading) -> Seq<char> {
    match r {
        Reading::Counter(v) => name + " "@ + decimal(v as nat) + "\n"@,
        Reading::Gauge(v) => name + " "@ + signed_decimal(v as int) + "\n"@,
        Reading::Histogram => Seq::empty(),
    }
}

/// The text of one sample: a help line, a type line and the value line.
pub open spec fn sample_text(name: Seq<char>, help: Seq<char>, r: Reading) -> Seq<char> {
    "# HELP "@ + name + " "@ + help + "\n"@ + "# TYPE "@ + name + " "@ + kind_word(r) + "\n"@
        + value_line(name, r)
}

/// The text of a snapshot: its samples' texts, in order.
pub open spec fn snapshot_text(samples: Seq<Sample>) -> Seq<char>
    decreases samples.len(),
{
    if samples.len() == 0 {
        Seq::empty()
    } else {
        let last = samples.last();
        snapshot_text(samples.drop_last()) + sample_text(last.name@, last.help@, last.reading)
    }
}

/// Render a snapshot as text.
pub fn render_snapshot(samples: &[Sample]) -> (r: String)
    ensures
        r@ == snapshot_text(samples@),
{
    let mut text = String::new();
    let mut i: usize = 0;
    while i < samples.len()
        invariant
            i <= samples@.len(),
            text@ == snapshot_text(samples@.subrange(0, i as int)),
        decreases samples@.len() - i,
    {
        let s = &samples[i];
        text.append("# HELP ");
        text.append(s.name.as_str());
        text.append(" ");
        text.append(s.help.as_str());
        text.append("\n");
        text.append("# TYPE ");
        text.append(s.name.as_str());
        text.append(" ");
        match s.reading {
            Reading::Counter(v) => {
                text.append("counter\n");
                text.append(s.name.as_str());
                text.append(" ");
                text.append(u64_text(v).as_str());
                text.append("\n");
            },
            Reading::Gauge(v) => {
                text.append("gauge\n");
                text.append(s.name.as_str());
                text.append(" ");
                text.append(i64_text(v).as_str());
                text.append("\n");
            },
            Reading::Histogram => {
                text.append("histogram\n");
            },
        }
        proof {
            let pre = samples@.subrange(0, i as int);
            let post = samples@.subrange(0, i + 1);
            assert(post.drop_last() =~= pre);
            assert(post.last() == samples@[i as int]);
            reveal_strlit("counter");
            reveal_strlit("counter\n");
            reveal_strlit("gauge");
            reveal_strlit("gauge\n");
            reveal_strlit("histogram");
            reveal_strlit("histogram\n");
            reveal_strlit("\n");
            assert(text@ =~= snapshot_text(post));
        }
        i = i + 1;
    }
    assert(samples@.subrange(0, samples@.len() as int) =~= samples@);
    text
}

// ---------------------------------------------------------------------------
// Storage
// ---------------------------------------------------------------------------

/// The instrument an entry holds.
#[derive(Clone, Debug)]
pub enum MockInstrument {
    /// A counter cell, shared with the handle given out.
    Counter(MockCounter),
    /// A gauge cell, shared with the handle given out.
    Gauge(MockGauge),
    /// A histogram, whose state its owner keeps.
    Histogram,
}

/// A registered instrument and its identity.
pub struct MockEntry {
    /// The instrument's name.
    pub name: String,
    /// The instrument's help text.
    pub help: String,
    /// The instrument.
    pub instrument: MockInstrument,
}

/// The reading `r` is of the kind of instrument `i`.
pub open spec fn reading_fits(i: MockInstrument, r: Reading) -> bool {
    match i {
        MockInstrument::Counter(_) => r is Counter,
        MockInstrument::Gauge(_) => r is Gauge,
        MockInstrument::Histogram => r is Histogram,
    }
}

/// The content type of the in-memory backend's text.
pub open spec fn memory_content_type() -> Seq<char> {
    "text/plain; charset=utf-8"@
}

/// Registered instruments, one entry per name.
pub struct MockStorage {
    entries: Vec<MockEntry>,
}

impl MockStorage {
    /// The entries, in order of first registration.
    pub closed spec fn entries_view(&self) -> Seq<MockEntry> {
        self.entries@
    }

    /// The entries' names.
    pub open spec fn names_view(&self) -> Seq<Seq<char>> {
        self.entries_view().map_values(|e: MockEntry| e.name@)
    }

    /// No name has two entries.
    pub open spec fn wf(&self) -> bool {
        self.names_view().no_duplicates()
    }

    /// `samples` is a snapshot of this storage: one sample per entry, in
    /// order, with the entry's identity and a reading of its kind.
    pub open spec fn is_snapshot(&self, samples: Seq<Sample>) -> bool {
        &&& samples.len() == self.entries_view().len()
        &&& forall|i: int|
            0 <= i < samples.len() ==> {
                &&& (#[trigger] samples[i]).name@ == self.entries_view()[i].name@
                &&& samples[i].help@ == self.entries_view()[i].help@
                &&& reading_fits(self.entries_view()[i].instrument, samples[i].reading)
            }
    }

    /// `out` renders the snapshot `samples` of this storage.
    pub open spec fn renders(&self, samples: Seq<Sample>, out: RenderedMetrics) -> bool {
        &&& self.is_snapshot(samples)
        &&& out.content_type@ == memory_content_type()
        &&& out.body@ == encode_utf8(snapshot_text(samples))
    }

    /// An empty storage.
    pub fn new() -> (r: Self)
        ensures
            r.wf(),
            r.entries_view().len() == 0,
    {
        let r = MockStorage { entries: Vec::new() };
        assert(r.names_view() =~= Seq::<Seq<char>>::empty());
        r
    }

    /// The index of the entry named `name`, if any.
    pub fn position(&self, name: &str) -> (r: Option<usize>)
        ensures
            r is Some ==> r->Some_0 < self.entries_view().len() && self.names_view()[r->Some_0 as int]
                == name@,
            r is None ==> !self.names_view().contains(name@),
    {
        let wanted = name.to_owned();
        let mut i: usize = 0;
        while i < self.entries.len()
            invariant
                i <= self.entries@.len(),
                wanted@ == name@,
                forall|j: int| 0 <= j < i ==> self.names_view()[j] != name@,
            decreases self.entries@.len() - i,
        {
            if self.entries[i].name == wanted {
                return Some(i);
            }
            i = i + 1;
        }
        assert forall|j: int| 0 <= j < self.names_view().len() implies self.names_view()[j]
            != name@ by {}
        None
    }

    /// Register `instrument` under `name`, replacing the entry of that name
    /// if there is one; returns the entry's index.
    pub fn insert(&mut self, name: &str, help: &str, instrument: MockInstrument) -> (r: usize)
        requires
            old(self).wf(),
        ensures
            final(self).wf(),
            final(self).names_view().to_set() == old(self).names_view().to_set().insert(name@),
            r < final(self).entries_view().len(),
            final(self).entries_view()[r as int].name@ == name@,
            final(self).entries_view()[r as int].help@ == help@,
            final(self).entries_view()[r as int].instrument == instrument,
            old(self).names_view().contains(name@) ==> final(self).entries_view().len()
                == old(self).entries_view().len(),
            !old(self).names_view().contains(name@) ==> final(self).entries_view().len()
                == old(self).entries_view().len() + 1,
            forall|j: int|
                0 <= j < old(self).entries_view().len() && j != r ==> final(self).entries_view()[j]
                    == old(self).entries_view()[j],
    {
        let entry = MockEntry { name: name.to_owned(), help: help.to_owned(), instrument };
        match self.position(name) {
            Some(i) => {
                self.entries.set(i, entry);
                assert(self.names_view() =~= old(self).names_view().update(i as int, name@));
                assert(self.names_view().to_set() =~= old(self).names_view().to_set().insert(name@))
                    by {
                    assert forall|x: Seq<char>|
                        self.names_view().contains(x) implies old(self).names_view().contains(x)
                        || x == name@ by {
                        let k: int = choose|k: int| 0 <= k < self.names_view().len() && self.names_view()[k] == x;
                        if k != i {
                            assert(old(self).names_view()[k] == x);
                        }
                    }
                    assert forall|x: Seq<char>|
                        old(self).names_view().contains(x) || x == name@ implies self.names_view().contains(x) by {
                        if x == name@ {
                            assert(self.names_view()[i as int] == x);
                        } else {
                            let k: int = choose|k: int| 0 <= k < old(self).names_view().len() && old(self).names_view()[k] == x;
                            assert(k != i);
                            assert(self.names_view()[k] == x);
                        }
                    }
                }
                i
            },
            None => {
                let ghost before = self.names_view();
                self.entries.push(entry);
                assert(self.names_view() =~= before.push(name@));
                proof {
                    before.lemma_push_to_set_commute(name@);
                }
                self.entries.len() - 1
            },
        }
    }

    /// Read every instrument once.
    pub fn snapshot(&self) -> (r: Vec<Sample>)
        ensures
            self.is_snapshot(r@),
    {
        let mut out: Vec<Sample> = Vec::new();
        let mut i: usize = 0;
        while i < self.entries.len()
            invariant
                i <= self.entries@.len(),
                out@.len() == i,
                forall|j: int|
                    0 <= j < i ==> {
                        &&& (#[trigger] out@[j]).name@ == self.entries_view()[j].name@
                        &&& out@[j].help@ == self.entries_view()[j].help@
                        &&& reading_fits(self.entries_view()[j].instrument, out@[j].reading)
                    },
            decreases self.entries@.len() - i,
        {
            let e = &self.entries[i];
            let reading = match &e.instrument {
                MockInstrument::Counter(c) => Reading::Counter(c.get()),
                MockInstrument::Gauge(g) => Reading::Gauge(g.get()),
                MockInstrument::Histogram => Reading::Histogram,
            };
            out.push(Sample { name: e.name.clone(), help: e.help.clone(), reading });
            i = i + 1;
        }
        out
    }

    /// Read every instrument once and render the snapshot.
    pub fn render_text(&self) -> (r: RenderedMetrics)
        ensures
            exists|samples: Seq<Sample>| self.renders(samples, r),
    {
        let samples = self.snapshot();
        let text = render_snapshot(samples.as_slice());
        let body = text.as_str().as_bytes_vec();
        let r = RenderedMetrics::new("text/plain; charset=utf-8", body);
        assert(self.renders(samples@, r));
        r
    }
}

/// Rendering reads nothing but the entries and their instruments' values:
/// two renders of a storage whose instruments read the same values (no
/// mutation in between) produce the same bytes and the same content type.
/// It applies to `render`, whose payload `spec_renders` gives as a render of
/// some snapshot.
pub proof fn lemma_render_idempotent(
    storage: &MockStorage,
    first: Seq<Sample>,
    second: Seq<Sample>,
    a: RenderedMetrics,
    b: RenderedMetrics,
)
    requires
        storage.renders(first, a),
        storage.renders(second, b),
        forall|i: int| 0 <= i < first.len() ==> (#[trigger] first[i]).reading == second[i].reading,
    ensures
        a.body@ == b.body@,
        a.content_type@ == b.content_type@,
{
    lemma_same_text(first, second);
}

/// Snapshots that agree on every sample's name, help and reading have the same text.
proof fn lemma_same_text(first: Seq<Sample>, second: Seq<Sample>)
    requires
        first.len() == second.len(),
        forall|i: int|
            0 <= i < first.len() ==> {
                &&& (#[trigger] first[i]).name@ == second[i].name@
                &&& first[i].help@ == second[i].help@
                &&& first[i].reading == second[i].reading
            },
    ensures
        snapshot_text(first) == snapshot_text(second),
    decreases first.len(),
{
    if first.len() > 0 {
        lemma_same_text(first.drop_last(), second.drop_last());
    }
}

impl MetricsRenderer for MockStorage {
    type Error = ();

    open spec fn spec_content_type(&self) -> Seq<char> {
        memory_content_type()
    }

    open spec fn spec_infallible(&self) -> bool {
        true
    }

    open spec fn spec_renders(&self, out: RenderedMetrics) -> bool {
        exists|samples: Seq<Sample>| self.renders(samples, out)
    }

    fn render(&self) -> (r: Result<RenderedMetrics, ()>) {
        let out = self.render_text();
        Ok(out)
    }
}

/// The in-memory backend; `H` is the histogram handle type its users keep.
pub struct MockBackend<H> {
    histogram: PhantomData<H>,
}

impl<H> MetricBackend for MockBackend<H> {
    type Registry = MockStorage;
    type Counter = MockCounter;
    type Gauge = MockGauge;
    type Histogram = H;
    type Error = ();

    open spec fn storage_wf(registry: &MockStorage) -> bool {
        registry.wf()
    }

    open spec fn registered(registry: &MockStorage) -> Set<Seq<char>> {
        registry.names_view().to_set()
    }

    open spec fn admits(registry: &MockStorage, name: Seq<char>) -> bool {
        true
    }

    open spec fn admits_histogram(registry: &MockStorage, name: Seq<char>, bounds: Seq<u64>) -> bool {
        true
    }

    open spec fn name_error(registry: &MockStorage, name: Seq<char>, e: ()) -> bool {
        false
    }

    open spec fn histogram_error(registry: &MockStorage, name: Seq<char>, bounds: Seq<u64>, e: ()) -> bool {
        false
    }

    fn create_registry() -> MockStorage {
        let r = MockStorage::new();
        assert(r.names_view().to_set() =~= Set::<Seq<char>>::empty());
        r
    }

    fn register_counter(registry: &mut MockStorage, name: &str, help: &str) -> Result<MockCounter, ()> {
        let counter = MockCounter::new();
        registry.insert(name, help, MockInstrument::Counter(counter.clone()));
        Ok(counter)
    }

    fn register_gauge(registry: &mut MockStorage, name: &str, help: &str) -> Result<MockGauge, ()> {
        let gauge = MockGauge::new();
        registry.insert(name, help, MockInstrument::Gauge(gauge.clone()));
        Ok(gauge)
    }

    fn register_histogram(
        registry: &mut MockStorage,
        name: &str,
        help: &str,
        _bounds: &[u64],
        histogram: H,
    ) -> Result<H, ()> {
        registry.insert(name, help, MockInstrument::Histogram);
        Ok(histogram)
    }
}

} // verus!
