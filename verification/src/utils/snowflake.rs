//! Snowflake identifiers: 64-bit ids made of a millisecond timestamp
//! (relative to an epoch), a worker id, a process id and an increment.

use std::sync::atomic::AtomicU16;
use vstd::prelude::*;
use vstd::string::StringSliceAdditionalSpecFns;

use crate::utils::clock::unix_millis;
use crate::utils::text::{
    decimal, decimal_bytes, digit_byte, digit_count, lemma_decimal_bytes_len, lemma_decimal_utf8,
    lemma_digit_byte_value, lemma_digit_count_monotonic, lemma_single_digit,
};
use vstd::utf8::encode_utf8;

verus! {

/// Largest worker id that fits in the five worker bits of an id.
pub const MAXIMUM_WORKER_ID: u64 = 0b11111;

/// Largest process id that fits in the five process bits of an id.
pub const MAXIMUM_PROCESS_ID: u64 = 0b11111;

/// Largest increment that fits in the twelve increment bits of an id.
pub const MAXIMUM_INCREMENT: u16 = 0b111111111111;

/// The Discord epoch (2015-01-01T00:00:00Z) in milliseconds.
pub const DISCORD_EPOCH: u64 = 1420070400000;

/// The Twitter epoch (2010-11-04T01:42:54.657Z) in milliseconds.
pub const TWITTER_EPOCH: u64 = 1288834974657;

/// The id built from its parts: the timestamp relative to the epoch in the
/// high bits, then worker and process ids (five bits each, masked), then the
/// increment, or-ed in as given.
pub open spec fn snowflake_id(epoch: u64, timestamp: u64, worker_id: u64, process_id: u64, increment: u64) -> u64 {
    (((timestamp - epoch) as u64) << 22u64) | ((worker_id & 31u64) << 17u64) | ((process_id & 31u64) << 12u64) | increment
}

/// The timestamp, in milliseconds, that an id carries under `epoch`.
pub open spec fn id_timestamp(epoch: u64, id: u64) -> int {
    (id >> 22u64) + epoch
}

/// Generator of snowflake ids under a fixed epoch.
#[derive(Debug)]
pub struct Snowflake {
    epoch: u64,
    process_id: u64,
    worker_id: u64,
    increment: AtomicU16,
}

/// The configuration of a generator: its epoch and its default worker and
/// process ids.
pub struct SnowflakeView {
    pub epoch: u64,
    pub process_id: u64,
    pub worker_id: u64,
}

impl View for Snowflake {
    type V = SnowflakeView;

    closed spec fn view(&self) -> SnowflakeView {
        SnowflakeView { epoch: self.epoch, process_id: self.process_id, worker_id: self.worker_id }
    }
}

/// What a caller may fix in a generated id; the generator supplies what is left `None`.
#[derive(Debug, Clone, Copy)]
pub struct GenerateOptions {
    pub increment: Option<u16>,
    pub timestamp: Option<u64>,
    pub worker_id: Option<u64>,
    pub process_id: Option<u64>,
}

impl Default for GenerateOptions {
    fn default() -> (res: Self)
        ensures
            res.increment is None,
            res.timestamp is None,
            res.worker_id is None,
            res.process_id is None,
    {
        GenerateOptions { increment: None, timestamp: None, worker_id: None, process_id: None }
    }
}

/// The parts of an id, as `deconstruct` reads them back.
#[derive(Debug, Clone, Copy, PartialEq, Eq, Structural)]
pub struct DeconstructedSnowflake {
    pub id: u64,
    pub timestamp: u64,
    pub worker_id: u64,
    pub process_id: u64,
    pub increment: u64,
    pub epoch: u64,
}

/// The options in force: those given, or none at all.
pub open spec fn options_or_default(options: Option<GenerateOptions>) -> GenerateOptions {
    match options {
        Some(o) => o,
        None => GenerateOptions { increment: None, timestamp: None, worker_id: None, process_id: None },
    }
}

/// The timestamp an id gets: the one given, or the clock reading.
pub open spec fn chosen_timestamp(options: Option<GenerateOptions>, now_millis: u64) -> u64 {
    match options_or_default(options).timestamp {
        Some(t) => t,
        None => now_millis,
    }
}

/// The id that `generate` builds for these options when the clock reads
/// `now_millis` and the generator's counter yields `counter`: the given
/// timestamp or the clock; the given worker and process ids or the
/// generator's own; the given increment unmasked, or the counter masked to
/// twelve bits.
pub open spec fn generated_id(cfg: SnowflakeView, options: Option<GenerateOptions>, now_millis: u64, counter: u16) -> u64 {
    let opts = options_or_default(options);
    let worker_id = match opts.worker_id {
        Some(w) => w,
        None => cfg.worker_id,
    };
    let process_id = match opts.process_id {
        Some(p) => p,
        None => cfg.process_id,
    };
    let increment: u64 = match opts.increment {
        Some(i) => i as u64,
        None => (counter & 0xfffu16) as u64,
    };
    snowflake_id(cfg.epoch, chosen_timestamp(options, now_millis), worker_id, process_id, increment)
}

/// The parts that `deconstruct` reads out of `id` under `epoch`.
pub open spec fn deconstructed(epoch: u64, id: u64) -> DeconstructedSnowflake {
    DeconstructedSnowflake {
        id,
        timestamp: ((id >> 22u64) + epoch) as u64,
        worker_id: (id >> 17u64) & 31u64,
        process_id: (id >> 12u64) & 31u64,
        increment: id & 0xfffu64,
        epoch,
    }
}

/// The bit layout of an id: a delta below 2^42 and an increment below 2^12
/// come back out of the id unchanged, and the worker and process ids come back
/// as their low five bits.
proof fn lemma_id_layout(delta: u64, worker_id: u64, process_id: u64, increment: u64)
    by (bit_vector)
    requires
        delta < 0x400_0000_0000u64,
        increment <= 0xfffu64,
    ensures
        ((delta << 22u64) | ((worker_id & 31u64) << 17u64) | ((process_id & 31u64) << 12u64) | increment) >> 22u64 == delta,
        (((delta << 22u64) | ((worker_id & 31u64) << 17u64) | ((process_id & 31u64) << 12u64) | increment) >> 17u64) & 31u64 == worker_id & 31u64,
        (((delta << 22u64) | ((worker_id & 31u64) << 17u64) | ((process_id & 31u64) << 12u64) | increment) >> 12u64) & 31u64 == process_id & 31u64,
        ((delta << 22u64) | ((worker_id & 31u64) << 17u64) | ((process_id & 31u64) << 12u64) | increment) & 0xfffu64 == increment,
{
}

/// Ids are ordered by their timestamps first: a smaller delta gives a smaller
/// id, whatever the other parts.
proof fn lemma_id_order(d1: u64, w1: u64, p1: u64, i1: u64, d2: u64, w2: u64, p2: u64, i2: u64)
    by (bit_vector)
    requires
        d1 < d2,
        d2 < 0x400_0000_0000u64,
        i1 <= 0xfffu64,
        i2 <= 0xfffu64,
    ensures
        ((d1 << 22u64) | ((w1 & 31u64) << 17u64) | ((p1 & 31u64) << 12u64) | i1)
            < ((d2 << 22u64) | ((w2 & 31u64) << 17u64) | ((p2 & 31u64) << 12u64) | i2),
{
}

/// Law: an id read back under its epoch gives the parts it was built from —
/// the timestamp, the worker and process ids cut to five bits, and the
/// increment — as long as the timestamp lies less than 2^42 ms after the
/// epoch and the increment fits in twelve bits.
pub proof fn lemma_deconstruct_snowflake_id(epoch: u64, timestamp: u64, worker_id: u64, process_id: u64, increment: u64)
    requires
        epoch <= timestamp,
        timestamp - epoch < 0x400_0000_0000u64,
        increment <= 0xfffu64,
    ensures
        id_timestamp(epoch, snowflake_id(epoch, timestamp, worker_id, process_id, increment)) == timestamp,
        deconstructed(epoch, snowflake_id(epoch, timestamp, worker_id, process_id, increment))
            == (DeconstructedSnowflake {
                id: snowflake_id(epoch, timestamp, worker_id, process_id, increment),
                timestamp,
                worker_id: worker_id & 31u64,
                process_id: process_id & 31u64,
                increment,
                epoch,
            }),
{
    lemma_id_layout((timestamp - epoch) as u64, worker_id, process_id, increment);
}

/// Law: what `generate` builds reads back as the chosen timestamp, the chosen
/// worker and process ids cut to five bits, and the chosen increment (the
/// counter cut to twelve bits where no increment was given). It fails for a
/// given increment above 4095, whose high bits spill into the process id.
pub proof fn lemma_generated_id_round_trip(cfg: SnowflakeView, options: Option<GenerateOptions>, now_millis: u64, counter: u16)
    requires
        chosen_timestamp(options, now_millis) >= cfg.epoch,
        chosen_timestamp(options, now_millis) - cfg.epoch < 0x400_0000_0000u64,
        options_or_default(options).increment matches Some(i) ==> i <= 0xfffu16,
    ensures
        ({
            let opts = options_or_default(options);
            let id = generated_id(cfg, options, now_millis, counter);
            let d = deconstructed(cfg.epoch, id);
            &&& id_timestamp(cfg.epoch, id) == chosen_timestamp(options, now_millis)
            &&& d.timestamp == chosen_timestamp(options, now_millis)
            &&& d.worker_id == (match opts.worker_id { Some(w) => w, None => cfg.worker_id }) & 31u64
            &&& d.process_id == (match opts.process_id { Some(p) => p, None => cfg.process_id }) & 31u64
            &&& d.increment == (match opts.increment { Some(i) => i as u64, None => (counter & 0xfffu16) as u64 })
        }),
{
    let opts = options_or_default(options);
    let increment: u64 = match opts.increment {
        Some(i) => i as u64,
        None => (counter & 0xfffu16) as u64,
    };
    assert(increment <= 0xfffu64) by {
        if opts.increment is None {
            assert((counter & 0xfffu16) <= 0xfffu16) by (bit_vector);
        }
    }
    let worker_id = match opts.worker_id { Some(w) => w, None => cfg.worker_id };
    let process_id = match opts.process_id { Some(p) => p, None => cfg.process_id };
    lemma_deconstruct_snowflake_id(cfg.epoch, chosen_timestamp(options, now_millis), worker_id, process_id, increment);
}

/// Law: ids under one epoch are ordered by their timestamps: an id with an
/// earlier timestamp is smaller, whatever its worker id, process id and
/// increment (each increment within twelve bits).
pub proof fn lemma_snowflake_id_monotonic(
    epoch: u64,
    t1: u64, w1: u64, p1: u64, i1: u64,
    t2: u64, w2: u64, p2: u64, i2: u64,
)
    requires
        epoch <= t1,
        t1 < t2,
        t2 - epoch < 0x400_0000_0000u64,
        i1 <= 0xfffu64,
        i2 <= 0xfffu64,
    ensures
        snowflake_id(epoch, t1, w1, p1, i1) < snowflake_id(epoch, t2, w2, p2, i2),
{
    lemma_id_order((t1 - epoch) as u64, w1, p1, i1, (t2 - epoch) as u64, w2, p2, i2);
}

/// Byte-wise lexicographic order, the order of `str`'s `Ord`.
pub open spec fn lexicographic_order(a: Seq<u8>, b: Seq<u8>) -> std::cmp::Ordering
    decreases a.len(),
{
    if a.len() == 0 {
        if b.len() == 0 {
            std::cmp::Ordering::Equal
        } else {
            std::cmp::Ordering::Less
        }
    } else if b.len() == 0 {
        std::cmp::Ordering::Greater
    } else if a[0] < b[0] {
        std::cmp::Ordering::Less
    } else if a[0] > b[0] {
        std::cmp::Ordering::Greater
    } else {
        lexicographic_order(a.drop_first(), b.drop_first())
    }
}

/// The order of id strings: shorter strings first, strings of one length
/// byte-wise lexicographically.
pub open spec fn id_string_order(a: Seq<u8>, b: Seq<u8>) -> std::cmp::Ordering {
    if a.len() < b.len() {
        std::cmp::Ordering::Less
    } else if a.len() > b.len() {
        std::cmp::Ordering::Greater
    } else {
        lexicographic_order(a, b)
    }
}

/// The reverse of an ordering.
pub open spec fn reversed(o: std::cmp::Ordering) -> std::cmp::Ordering {
    match o {
        std::cmp::Ordering::Less => std::cmp::Ordering::Greater,
        std::cmp::Ordering::Equal => std::cmp::Ordering::Equal,
        std::cmp::Ordering::Greater => std::cmp::Ordering::Less,
    }
}

/// The bytes of `s` from position `i` on.
spec fn tail_from(s: Seq<u8>, i: usize) -> Seq<u8> {
    s.skip(i as int)
}

/// The bytes of `s` after position `i`.
spec fn tail_after(s: Seq<u8>, i: usize) -> Seq<u8> {
    s.skip(i as int + 1)
}

proof fn lemma_tail_step(s: Seq<u8>, i: usize)
    requires
        i < s.len(),
    ensures
        tail_from(s, i).len() > 0,
        tail_from(s, i)[0] == s[i as int],
        tail_from(s, i).drop_first() =~= tail_after(s, i),
{
}

proof fn lemma_lexicographic_skip(a: Seq<u8>, b: Seq<u8>, i: usize)
    requires
        i < a.len(),
        i < b.len(),
        tail_from(a, i)[0] == tail_from(b, i)[0],
    ensures
        lexicographic_order(tail_from(a, i), tail_from(b, i)) == lexicographic_order(tail_after(a, i), tail_after(b, i)),
{
    lemma_tail_step(a, i);
    lemma_tail_step(b, i);
}

/// Law: the lexicographic order is antisymmetric, and says `Equal` exactly
/// of equal sequences.
pub proof fn lemma_lexicographic_order_laws(a: Seq<u8>, b: Seq<u8>)
    ensures
        lexicographic_order(b, a) == reversed(lexicographic_order(a, b)),
        (lexicographic_order(a, b) == std::cmp::Ordering::Equal) <==> a == b,
    decreases a.len(),
{
    if a.len() > 0 && b.len() > 0 && a[0] == b[0] {
        lemma_lexicographic_order_laws(a.drop_first(), b.drop_first());
        if a.drop_first() == b.drop_first() {
            assert(a =~= seq![a[0]] + a.drop_first());
            assert(b =~= seq![b[0]] + b.drop_first());
        }
    }
    if a.len() == 0 && b.len() == 0 {
        assert(a =~= b);
    }
}

/// Law: the order of id strings is antisymmetric and says `Equal` exactly of
/// equal byte strings.
pub proof fn lemma_id_string_order_laws(a: Seq<u8>, b: Seq<u8>)
    ensures
        id_string_order(b, a) == reversed(id_string_order(a, b)),
        (id_string_order(a, b) == std::cmp::Ordering::Equal) <==> a == b,
{
    lemma_lexicographic_order_laws(a, b);
}

/// The order of two numbers.
pub open spec fn numeric_order(m: nat, n: nat) -> std::cmp::Ordering {
    if m < n {
        std::cmp::Ordering::Less
    } else if m > n {
        std::cmp::Ordering::Greater
    } else {
        std::cmp::Ordering::Equal
    }
}

/// Appending one byte to each of two sequences of one length decides their
/// order only where the sequences were equal.
proof fn lemma_lexicographic_append(x: Seq<u8>, y: Seq<u8>, c: u8, e: u8)
    requires
        x.len() == y.len(),
    ensures
        lexicographic_order(x + seq![c], y + seq![e]) == (if lexicographic_order(x, y)
            == std::cmp::Ordering::Equal {
            lexicographic_order(seq![c], seq![e])
        } else {
            lexicographic_order(x, y)
        }),
    decreases x.len(),
{
    if x.len() == 0 {
        assert(x + seq![c] =~= seq![c]);
        assert(y + seq![e] =~= seq![e]);
    } else {
        assert((x + seq![c])[0] == x[0]);
        assert((y + seq![e])[0] == y[0]);
        assert((x + seq![c]).drop_first() =~= x.drop_first() + seq![c]);
        assert((y + seq![e]).drop_first() =~= y.drop_first() + seq![e]);
        if x[0] == y[0] {
            lemma_lexicographic_append(x.drop_first(), y.drop_first(), c, e);
        }
    }
}

/// Single digits are ordered by their bytes as by their values.
proof fn lemma_digit_order(a: nat, b: nat)
    requires
        a < 10,
        b < 10,
    ensures
        lexicographic_order(seq![digit_byte(a)], seq![digit_byte(b)]) == numeric_order(a, b),
{
    lemma_digit_byte_value(a);
    lemma_digit_byte_value(b);
    let x = seq![digit_byte(a)];
    let y = seq![digit_byte(b)];
    assert(x.drop_first().len() == 0);
    assert(y.drop_first().len() == 0);
    assert(lexicographic_order(x.drop_first(), y.drop_first()) == std::cmp::Ordering::Equal);
}

/// For numbers with as many digits, the lexicographic order of their digit
/// bytes is their numeric order.
proof fn lemma_decimal_lexicographic(m: nat, n: nat)
    requires
        digit_count(m) == digit_count(n),
    ensures
        lexicographic_order(decimal_bytes(m), decimal_bytes(n)) == numeric_order(m, n),
    decreases n,
{
    lemma_single_digit(m);
    lemma_single_digit(n);
    if n < 10 {
        assert(m < 10);
        lemma_digit_order(m, n);
    } else {
        assert(m >= 10);
        lemma_decimal_lexicographic(m / 10, n / 10);
        lemma_decimal_bytes_len(m / 10);
        lemma_decimal_bytes_len(n / 10);
        lemma_lexicographic_append(
            decimal_bytes(m / 10),
            decimal_bytes(n / 10),
            digit_byte(m % 10),
            digit_byte(n % 10),
        );
        lemma_digit_order(m % 10, n % 10);
    }
}

/// Law: ordering the decimal notations of two numbers as id strings, as
/// `compare_strings` does with their bytes, orders the numbers themselves.
pub proof fn lemma_decimal_id_order(m: nat, n: nat)
    ensures
        id_string_order(encode_utf8(decimal(m)), encode_utf8(decimal(n))) == numeric_order(m, n),
{
    lemma_decimal_utf8(m);
    lemma_decimal_utf8(n);
    lemma_decimal_bytes_len(m);
    lemma_decimal_bytes_len(n);
    if m <= n {
        lemma_digit_count_monotonic(m, n);
    } else {
        lemma_digit_count_monotonic(n, m);
    }
    if digit_count(m) == digit_count(n) {
        lemma_decimal_lexicographic(m, n);
    }
}

/// Compares two byte strings of one length lexicographically.
fn compare_equal_length(a: &[u8], b: &[u8]) -> (o: std::cmp::Ordering)
    requires
        a@.len() == b@.len(),
    ensures
        o == lexicographic_order(a@, b@),
{
    let n = a.len();
    let mut i: usize = 0;
    assert(tail_from(a@, 0) =~= a@);
    assert(tail_from(b@, 0) =~= b@);
    while i < n
        invariant
            n == a@.len(),
            n == b@.len(),
            0 <= i <= n,
            lexicographic_order(a@, b@) == lexicographic_order(tail_from(a@, i), tail_from(b@, i)),
        decreases n - i,
    {
        proof {
            lemma_tail_step(a@, i);
            lemma_tail_step(b@, i);
        }
        if a[i] < b[i] {
            return std::cmp::Ordering::Less;
        } else if a[i] > b[i] {
            return std::cmp::Ordering::Greater;
        }
        proof {
            lemma_lexicographic_skip(a@, b@, i);
        }
        i = i + 1;
    }
    assert(tail_from(a@, n).len() == 0);
    assert(tail_from(b@, n).len() == 0);
    std::cmp::Ordering::Equal
}

impl Snowflake {
    /// A generator for `epoch`, with process id 1, worker id 0 and its
    /// counter at 0.
    pub fn new(epoch: u64) -> (s: Self)
        ensures
            s@.epoch == epoch,
            s@.process_id == 1,
            s@.worker_id == 0,
    {
        Snowflake { epoch, process_id: 1, worker_id: 0, increment: AtomicU16::new(0) }
    }

    pub fn epoch(&self) -> (e: u64)
        ensures
            e == self@.epoch,
    {
        self.epoch
    }

    pub fn process_id(&self) -> (p: u64)
        ensures
            p == self@.process_id,
    {
        self.process_id
    }

    /// Sets the default process id to the low five bits of `value`.
    pub fn set_process_id(&mut self, value: u64)
        ensures
            final(self)@.process_id == value & 31u64,
            final(self)@.worker_id == old(self)@.worker_id,
            final(self)@.epoch == old(self)@.epoch,
    {
        self.process_id = value & MAXIMUM_PROCESS_ID;
    }

    pub fn worker_id(&self) -> (w: u64)
        ensures
            w == self@.worker_id,
    {
        self.worker_id
    }

    /// Sets the default worker id to the low five bits of `value`.
    pub fn set_worker_id(&mut self, value: u64)
        ensures
            final(self)@.worker_id == value & 31u64,
            final(self)@.process_id == old(self)@.process_id,
            final(self)@.epoch == old(self)@.epoch,
    {
        self.worker_id = value & MAXIMUM_WORKER_ID;
    }

    /// Takes the next value of the generator's shared counter, which then
    /// advances by one (wrapping). Nothing is known of the value here: other
    /// holders of the generator advance the same counter.
    fn next_counter(&self) -> u16 {
        self.increment.fetch_add(1, std::sync::atomic::Ordering::Relaxed)
    }

    /// Builds an id from the options, taking the timestamp from `now_millis`
    /// and the increment from `counter` where the options leave them open.
    pub fn generate_at(&self, options: Option<GenerateOptions>, now_millis: u64, counter: u16) -> (id: u64)
        requires
            chosen_timestamp(options, now_millis) >= self@.epoch,
        ensures
            id == generated_id(self@, options, now_millis, counter),
    {
        let opts = match options {
            Some(o) => o,
            None => GenerateOptions::default(),
        };
        let timestamp = match opts.timestamp {
            Some(t) => t,
            None => now_millis,
        };
        let worker_id = match opts.worker_id {
            Some(w) => w,
            None => self.worker_id,
        } & MAXIMUM_WORKER_ID;
        let process_id = match opts.process_id {
            Some(p) => p,
            None => self.process_id,
        } & MAXIMUM_PROCESS_ID;
        let increment: u64 = match opts.increment {
            Some(i) => i as u64,
            None => (counter & MAXIMUM_INCREMENT) as u64,
        };
        ((timestamp - self.epoch) << 22u64) | (worker_id << 17u64) | (process_id << 12u64) | increment
    }

    /// Builds a new id. Where the options leave the timestamp open, the clock
    /// is read (a clock reading before the epoch counts as the epoch itself);
    /// where they leave the increment open, the shared counter is advanced
    /// and its previous value used.
    pub fn generate(&self, options: Option<GenerateOptions>) -> (id: u64)
        requires
            options_or_default(options).timestamp matches Some(t) ==> t >= self@.epoch,
        ensures
            exists|now_millis: u64, counter: u16|
                now_millis >= self@.epoch && id == #[trigger] generated_id(self@, options, now_millis, counter),
    {
        let opts = match options {
            Some(o) => o,
            None => GenerateOptions::default(),
        };
        let now_millis = match opts.timestamp {
            Some(_) => self.epoch,
            None => {
                let clock = unix_millis();
                if clock < self.epoch {
                    self.epoch
                } else {
                    clock
                }
            },
        };
        let counter = match opts.increment {
            Some(_) => 0,
            None => self.next_counter(),
        };
        self.generate_at(options, now_millis, counter)
    }

    /// Builds a new id with the clock reading `now_millis`: the id of
    /// `generate_at`, with the shared counter advanced and its previous value
    /// used where the options leave the increment open.
    pub fn generate_timed(&self, options: Option<GenerateOptions>, now_millis: u64) -> (id: u64)
        requires
            chosen_timestamp(options, now_millis) >= self@.epoch,
        ensures
            exists|counter: u16| id == #[trigger] generated_id(self@, options, now_millis, counter),
    {
        let opts = match options {
            Some(o) => o,
            None => GenerateOptions::default(),
        };
        let counter = match opts.increment {
            Some(_) => 0,
            None => self.next_counter(),
        };
        self.generate_at(options, now_millis, counter)
    }

    /// Reads the parts of `id` back under this generator's epoch.
    pub fn deconstruct(&self, id: u64) -> (d: DeconstructedSnowflake)
        requires
            id_timestamp(self@.epoch, id) <= u64::MAX,
        ensures
            d == deconstructed(self@.epoch, id),
    {
        DeconstructedSnowflake {
            id,
            timestamp: (id >> 22u64) + self.epoch,
            worker_id: (id >> 17u64) & MAXIMUM_WORKER_ID,
            process_id: (id >> 12u64) & MAXIMUM_PROCESS_ID,
            increment: id & (MAXIMUM_INCREMENT as u64),
            epoch: self.epoch,
        }
    }

    /// The same as `deconstruct`.
    pub fn decode(&self, id: u64) -> (d: DeconstructedSnowflake)
        requires
            id_timestamp(self@.epoch, id) <= u64::MAX,
        ensures
            d == deconstructed(self@.epoch, id),
    {
        self.deconstruct(id)
    }

    /// The timestamp, in milliseconds, that `id` carries.
    pub fn timestamp_from(&self, id: u64) -> (t: u64)
        requires
            id_timestamp(self@.epoch, id) <= u64::MAX,
        ensures
            t == id_timestamp(self@.epoch, id),
    {
        (id >> 22u64) + self.epoch
    }

    /// Orders id strings: the shorter (in bytes) first, strings of one length
    /// lexicographically by their bytes. For decimal ids without leading
    /// zeros this is the numeric order.
    pub fn compare_strings(a: &str, b: &str) -> (o: std::cmp::Ordering)
        ensures
            o == id_string_order(a.spec_bytes(), b.spec_bytes()),
    {
        let a_bytes = a.as_bytes();
        let b_bytes = b.as_bytes();
        if a_bytes.len() < b_bytes.len() {
            std::cmp::Ordering::Less
        } else if a_bytes.len() > b_bytes.len() {
            std::cmp::Ordering::Greater
        } else {
            compare_equal_length(a_bytes, b_bytes)
        }
    }
}

} // verus!
