//! Record-and-replay of model calls.
//!
//! A cassette maps a canonical request key to the response that was recorded
//! for it. The mode decides what a request does: `Off` passes every request
//! through and records nothing; `Record` always asks the real provider and
//! saves every answer; `Replay` serves only from the cassette and refuses a
//! miss; `Auto` serves from the cassette when it can and otherwise asks the
//! real provider and saves the answer.
use vstd::prelude::*;
use crate::text::{ascii_lower_seq, ascii_only, str_eq, to_lowercase, lowercase};
use crate::table::{KeyTable, inserted_all, law_last_pair_wins};

verus! {

/// Operating mode of the cassette wrappers.
#[derive(Debug, Clone, Copy, PartialEq, Eq, Structural)]
pub enum CassetteMode {
    /// Pass through to the real provider; nothing is recorded.
    Off,
    /// Call the real provider on a miss and keep every response.
    Record,
    /// Serve only from the cassette; a miss is an error.
    Replay,
    /// Serve from the cassette when possible, otherwise call and keep.
    Auto,
}

/// The mode a (lower-cased) name selects; anything unknown is `Off`.
pub open spec fn mode_named(name: Seq<char>) -> CassetteMode {
    if name == "record"@ {
        CassetteMode::Record
    } else if name == "replay"@ {
        CassetteMode::Replay
    } else if name == "auto"@ {
        CassetteMode::Auto
    } else {
        CassetteMode::Off
    }
}

/// Modes that keep what the real provider answered.
pub open spec fn records(mode: CassetteMode) -> bool {
    mode is Record || mode is Auto
}

impl CassetteMode {
    /// The mode for a configuration value, compared case-insensitively.
    pub fn from_name(raw: &str) -> (r: CassetteMode)
        ensures
            r == mode_named(lowercase(raw@)),
            ascii_only(raw@) ==> r == mode_named(ascii_lower_seq(raw@)),
    {
        let low = to_lowercase(raw);
        let s = low.as_str();
        if str_eq(s, "record") {
            CassetteMode::Record
        } else if str_eq(s, "replay") {
            CassetteMode::Replay
        } else if str_eq(s, "auto") {
            CassetteMode::Auto
        } else {
            CassetteMode::Off
        }
    }

    /// True for every mode but `Off`.
    pub fn is_active(&self) -> (r: bool)
        ensures
            r == !(*self is Off),
    {
        match self {
            CassetteMode::Off => false,
            _ => true,
        }
    }

    /// True for the modes that may write to the cassette.
    pub fn is_recording(&self) -> (r: bool)
        ensures
            r == records(*self),
    {
        match self {
            CassetteMode::Record | CassetteMode::Auto => true,
            _ => false,
        }
    }
}

/// Modes that answer from the cassette.
pub open spec fn consults(mode: CassetteMode) -> bool {
    mode is Replay || mode is Auto
}

/// The part of the cassette a mode answers from: all of it in `Replay` and
/// `Auto`, none of it in `Off` and `Record`.
pub open spec fn readable<V>(mode: CassetteMode, m: Map<Seq<char>, V>) -> Map<Seq<char>, V> {
    if consults(mode) {
        m
    } else {
        Map::empty()
    }
}

/// What a wrapper does for one request.
pub enum Step<'a, V> {
    /// Answer with the recorded response.
    Cached(&'a V),
    /// Refuse: the key is not recorded and the mode is `Replay`.
    Fail,
    /// Ask the real provider; keep its answer when `record` holds.
    Fetch { record: bool },
}

/// The cassette after a response was handed back in `mode`.
pub open spec fn recorded<V>(mode: CassetteMode, m: Map<Seq<char>, V>, k: Seq<char>, v: V) -> Map<
    Seq<char>,
    V,
> {
    if records(mode) {
        m.insert(k, v)
    } else {
        m
    }
}

impl<V> KeyTable<V> {
    /// What the wrapper does for a request with `key` in `mode`: a recorded
    /// response is served in `Replay` and `Auto`; `Replay` refuses a miss;
    /// otherwise the real provider is asked.
    pub fn serve(&self, mode: &CassetteMode, key: &str) -> (r: Step<'_, V>)
        ensures
            match r {
                Step::Cached(v) => consults(*mode) && self@.contains_key(key@) && *v == self@[key@],
                Step::Fail => !self@.contains_key(key@) && *mode is Replay,
                Step::Fetch { record } => !readable(*mode, self@).contains_key(key@) && !(*mode is Replay)
                    && record == records(*mode),
            },
    {
        match mode {
            CassetteMode::Off => Step::Fetch { record: false },
            CassetteMode::Record => Step::Fetch { record: true },
            _ => match self.get(key) {
                Some(v) => Step::Cached(v),
                None => match mode {
                    CassetteMode::Replay => Step::Fail,
                    _ => Step::Fetch { record: mode.is_recording() },
                },
            },
        }
    }

    /// For a batch of keys in `mode`: the response the mode serves for each
    /// key, and, in increasing order, the positions of the keys it does not
    /// serve (every position in `Off` and `Record`).
    pub fn batch_lookup(&self, mode: &CassetteMode, keys: &Vec<String>) -> (r: (
        Vec<Option<&V>>,
        Vec<usize>,
    ))
        ensures
            r.0@.len() == keys@.len(),
            forall|i: int|
                0 <= i < keys@.len() ==> match #[trigger] r.0@[i] {
                    Some(v) => readable(*mode, self@).contains_key(keys@[i]@) && *v == self@[keys@[i]@],
                    None => !readable(*mode, self@).contains_key(keys@[i]@),
                },
            missing_positions(readable(*mode, self@), keys@, r.1@),
    {
        match mode {
            CassetteMode::Replay | CassetteMode::Auto => self.lookup_batch(keys),
            _ => {
                let ghost e = Map::<Seq<char>, V>::empty();
                let mut found: Vec<Option<&V>> = Vec::new();
                let mut missing: Vec<usize> = Vec::new();
                let mut i: usize = 0;
                while i < keys.len()
                    invariant
                        i <= keys@.len(),
                        found@.len() == i,
                        missing@.len() == i,
                        forall|j: int| 0 <= j < i ==> #[trigger] found@[j] is None,
                        forall|j: int| 0 <= j < i ==> #[trigger] missing@[j] == j,
                    decreases keys@.len() - i,
                {
                    found.push(None);
                    missing.push(i);
                    i = i + 1;
                }
                assert forall|j: int| 0 <= j < keys@.len() && !e.contains_key(
                    #[trigger] keys@[j]@,
                ) implies missing@.contains(j as usize) by {
                    assert(missing@[j] == j);
                }
                (found, missing)
            },
        }
    }

    /// Keeps `value` under `key` when `mode` records; otherwise changes nothing.
    pub fn record(&mut self, mode: &CassetteMode, key: String, value: V)
        ensures
            final(self)@ == recorded(*mode, old(self)@, key@, value),
    {
        if mode.is_recording() {
            self.insert(key, value);
        }
    }

    /// For a batch of keys: the recorded response of each key that has one,
    /// and, in increasing order, the positions of the keys that have none.
    pub fn lookup_batch(&self, keys: &Vec<String>) -> (r: (Vec<Option<&V>>, Vec<usize>))
        ensures
            r.0@.len() == keys@.len(),
            forall|i: int|
                0 <= i < keys@.len() ==> match #[trigger] r.0@[i] {
                    Some(v) => self@.contains_key(keys@[i]@) && *v == self@[keys@[i]@],
                    None => !self@.contains_key(keys@[i]@),
                },
            missing_positions(self@, keys@, r.1@),
    {
        let mut found: Vec<Option<&V>> = Vec::new();
        let mut missing: Vec<usize> = Vec::new();
        let mut i: usize = 0;
        while i < keys.len()
            invariant
                i <= keys@.len(),
                found@.len() == i,
                forall|j: int|
                    0 <= j < i ==> match #[trigger] found@[j] {
                        Some(v) => self@.contains_key(keys@[j]@) && *v == self@[keys@[j]@],
                        None => !self@.contains_key(keys@[j]@),
                    },
                forall|a: int| 0 <= a < missing@.len() ==> #[trigger] missing@[a] < i,
                forall|a: int, b: int|
                    0 <= a < b < missing@.len() ==> #[trigger] missing@[a] < #[trigger] missing@[b],
                forall|a: int|
                    0 <= a < missing@.len() ==> !self@.contains_key(
                        keys@[#[trigger] missing@[a] as int]@,
                    ),
                forall|j: int|
                    0 <= j < i && !self@.contains_key(#[trigger] keys@[j]@) ==> missing@.contains(
                        j as usize,
                    ),
            decreases keys@.len() - i,
        {
            let g = self.get(keys[i].as_str());
            match g {
                None => {
                    let ghost prev = missing@;
                    missing.push(i);
                    proof {
                        assert(missing@.last() == i);
                        assert forall|j: int|
                            0 <= j < i + 1 && !self@.contains_key(
                                #[trigger] keys@[j]@,
                            ) implies missing@.contains(j as usize) by {
                            if j < i {
                                assert(prev.contains(j as usize));
                                let a = choose|a: int|
                                    0 <= a < prev.len() && prev[a] == j as usize;
                                assert(missing@[a] == prev[a]);
                            } else {
                                assert(missing@[missing@.len() - 1] == j as usize);
                            }
                        }
                    }
                },
                Some(_) => {},
            }
            found.push(g);
            i = i + 1;
        }
        (found, missing)
    }

    /// Records the fetched responses of a batch: the `j`-th fetched value
    /// under the key at `missing[j]`, for every `j` that both lists cover.
    pub fn record_batch(
        &mut self,
        mode: &CassetteMode,
        keys: &Vec<String>,
        missing: &Vec<usize>,
        fetched: Vec<V>,
    )
        requires
            forall|j: int| 0 <= j < missing@.len() ==> #[trigger] missing@[j] < keys@.len(),
        ensures
            final(self)@ == (if records(*mode) {
                inserted_all(
                    old(self)@,
                    zip_keys(keys@, missing@, fetched@),
                )
            } else {
                old(self)@
            }),
    {
        if !mode.is_recording() {
            return;
        }
        let n = if missing.len() < fetched.len() {
            missing.len()
        } else {
            fetched.len()
        };
        let ghost start = self@;
        let ghost pairs = zip_keys(keys@, missing@, fetched@);
        let mut rest = fetched;
        rest.truncate(n);
        let ghost kept = rest@;
        let mut vals: Vec<V> = Vec::new();
        while rest.len() > 0
            invariant
                vals@ + rest@.reverse() == kept.reverse(),
            decreases rest.len(),
        {
            let v = rest.pop().unwrap();
            proof {
                assert(rest@.push(v).reverse() =~= seq![v] + rest@.reverse());
            }
            vals.push(v);
            assert(vals@ + rest@.reverse() =~= kept.reverse());
        }
        assert(vals@ =~= kept.reverse());
        let mut j: usize = 0;
        while j < n
            invariant
                n <= missing@.len(),
                n == pairs.len(),
                kept.len() == n,
                forall|a: int| 0 <= a < n ==> kept[a] == pairs[a].1,
                forall|a: int| 0 <= a < n ==> #[trigger] pairs[a].0 == keys@[missing@[a] as int],
                forall|a: int| 0 <= a < missing@.len() ==> #[trigger] missing@[a] < keys@.len(),
                j <= n,
                vals@ == kept.skip(j as int).reverse(),
                self@ == inserted_all(start, pairs.take(j as int)),
            decreases n - j,
        {
            let v = vals.pop().unwrap();
            proof {
                assert(kept.skip(j as int).reverse().last() == kept.skip(j as int)[0]);
                assert(vals@ =~= kept.skip(j + 1).reverse());
                assert(pairs.take(j + 1).drop_last() =~= pairs.take(j as int));
            }
            let k = keys[missing[j]].clone();
            self.insert(k, v);
            j = j + 1;
        }
        assert(pairs.take(n as int) =~= pairs);
    }
}

/// What a batch wrapper does once it knows how many texts the cassette
/// lacks.
pub enum BatchStep {
    /// Every text was recorded: answer from the cassette.
    Served,
    /// Some text is missing in `Replay` mode: the whole batch fails.
    Fail,
    /// Ask the real provider for the missing texts; keep the answers when
    /// `record` holds.
    Fetch { record: bool },
}

/// The step of a batch with `missing` texts absent from the cassette.
pub fn batch_step(mode: &CassetteMode, missing: usize) -> (r: BatchStep)
    ensures
        missing == 0 ==> r is Served,
        missing > 0 && *mode is Replay ==> r is Fail,
        missing > 0 && !(*mode is Replay) ==> (r matches BatchStep::Fetch { record } && record
            == records(*mode)),
{
    if missing == 0 {
        BatchStep::Served
    } else {
        match mode {
            CassetteMode::Replay => BatchStep::Fail,
            _ => BatchStep::Fetch { record: mode.is_recording() },
        }
    }
}

/// The cassette file: the configured path, or `cassette/llm_cassette.json`.
pub fn cassette_file_path(configured: Option<String>) -> (r: String)
    ensures
        r@ == (match configured {
            Some(p) => p@,
            None => "cassette/llm_cassette.json"@,
        }),
{
    match configured {
        Some(p) => p,
        None => "cassette/llm_cassette.json".to_owned(),
    }
}

/// `positions` lists, in increasing order, exactly the indices of `keys`
/// that `m` does not hold.
pub open spec fn missing_positions<V>(
    m: Map<Seq<char>, V>,
    keys: Seq<String>,
    positions: Seq<usize>,
) -> bool {
    &&& forall|a: int| 0 <= a < positions.len() ==> #[trigger] positions[a] < keys.len()
    &&& forall|a: int, b: int|
        0 <= a < b < positions.len() ==> #[trigger] positions[a] < #[trigger] positions[b]
    &&& forall|a: int|
        0 <= a < positions.len() ==> !m.contains_key(keys[#[trigger] positions[a] as int]@)
    &&& forall|i: int|
        0 <= i < keys.len() && !m.contains_key(#[trigger] keys[i]@) ==> positions.contains(
            i as usize,
        )
}

/// The pairs `(keys[missing[j]], fetched[j])` for every `j` both lists cover.
pub open spec fn zip_keys<V>(keys: Seq<String>, missing: Seq<usize>, fetched: Seq<V>) -> Seq<
    (String, V),
> {
    let n = if missing.len() < fetched.len() {
        missing.len()
    } else {
        fetched.len()
    };
    Seq::new(n, |j: int| (keys[missing[j] as int], fetched[j]))
}

/// The keys at `positions`, in that order (the requests a batch still needs).
pub fn select_keys(keys: &Vec<String>, positions: &Vec<usize>) -> (r: Vec<String>)
    requires
        forall|j: int| 0 <= j < positions@.len() ==> #[trigger] positions@[j] < keys@.len(),
    ensures
        r@.len() == positions@.len(),
        forall|j: int| 0 <= j < positions@.len() ==> #[trigger] r@[j] == keys@[positions@[j] as int],
{
    let mut r: Vec<String> = Vec::new();
    let mut j: usize = 0;
    while j < positions.len()
        invariant
            j <= positions@.len(),
            r@.len() == j,
            forall|a: int| 0 <= a < positions@.len() ==> #[trigger] positions@[a] < keys@.len(),
            forall|a: int| 0 <= a < j ==> #[trigger] r@[a] == keys@[positions@[a] as int],
        decreases positions@.len() - j,
    {
        r.push(keys[positions[j]].clone());
        j = j + 1;
    }
    r
}

/// Number of fetched values that find a place: the shorter of the two lists.
pub open spec fn paired_len(missing_len: nat, fetched_len: nat) -> nat {
    if missing_len < fetched_len {
        missing_len
    } else {
        fetched_len
    }
}

/// Slot `i` of a merged batch: the fetched value placed there, or else what
/// the cassette held.
pub open spec fn merged_slot<V>(
    cached: Seq<Option<V>>,
    missing: Seq<usize>,
    fetched: Seq<V>,
    i: int,
) -> Option<V> {
    let n = paired_len(missing.len(), fetched.len());
    if exists|j: int| 0 <= j < n && missing[j] == i {
        Some(fetched[choose|j: int| 0 <= j < n && missing[j] == i])
    } else {
        cached[i]
    }
}

/// Merging a batch puts the `j`-th fetched value at position `missing[j]`,
/// for every `j` that has both a missing position and a fetched value, and
/// leaves every other position as the cassette held it.
pub proof fn law_merge_places_each_fetched_value<V>(
    cached: Seq<Option<V>>,
    missing: Seq<usize>,
    fetched: Seq<V>,
)
    requires
        forall|a: int, b: int| 0 <= a < b < missing.len() ==> #[trigger] missing[a] < #[trigger] missing[b],
    ensures
        forall|j: int|
            0 <= j < missing.len() && j < fetched.len() ==> #[trigger] merged_slot(
                cached,
                missing,
                fetched,
                missing[j] as int,
            ) == Some(fetched[j]),
        forall|i: int|
            (forall|j: int| 0 <= j < missing.len() && j < fetched.len() ==> #[trigger] missing[j] != i)
                ==> #[trigger] merged_slot(cached, missing, fetched, i) == cached[i],
{
    let n = paired_len(missing.len(), fetched.len());
    assert forall|j: int| 0 <= j < missing.len() && j < fetched.len() implies #[trigger] merged_slot(
        cached,
        missing,
        fetched,
        missing[j] as int,
    ) == Some(fetched[j]) by {
        let i = missing[j] as int;
        assert(0 <= j < n && missing[j] == i);
        let a = choose|a: int| 0 <= a < n && missing[a] == i;
        if a < j {
            assert(missing[a] < missing[j]);
        } else if j < a {
            assert(missing[j] < missing[a]);
        }
    }
    assert forall|i: int|
        (forall|j: int| 0 <= j < missing.len() && j < fetched.len() ==> #[trigger] missing[j] != i)
        implies #[trigger] merged_slot(cached, missing, fetched, i) == cached[i] by {
        if exists|j: int| 0 <= j < n && missing[j] == i {
            let j = choose|j: int| 0 <= j < n && missing[j] == i;
            assert(missing[j] != i);
        }
    }
}

/// Places the `j`-th fetched value at position `missing[j]` of the batch.
pub fn merge_batch<V>(cached: Vec<Option<V>>, missing: &Vec<usize>, fetched: Vec<V>) -> (r: Vec<
    Option<V>,
>)
    requires
        forall|j: int| 0 <= j < missing@.len() ==> #[trigger] missing@[j] < cached@.len(),
        forall|a: int, b: int|
            0 <= a < b < missing@.len() ==> #[trigger] missing@[a] < #[trigger] missing@[b],
    ensures
        r@.len() == cached@.len(),
        forall|i: int|
            0 <= i < cached@.len() ==> #[trigger] r@[i] == merged_slot(
                cached@,
                missing@,
                fetched@,
                i,
            ),
        forall|j: int|
            0 <= j < missing@.len() && j < fetched@.len() ==> r@[#[trigger] missing@[j] as int]
                == Some(fetched@[j]),
        forall|i: int|
            0 <= i < cached@.len() && (forall|j: int|
                0 <= j < missing@.len() && j < fetched@.len() ==> #[trigger] missing@[j] != i)
                ==> #[trigger] r@[i] == cached@[i],
{
    proof {
        law_merge_places_each_fetched_value(cached@, missing@, fetched@);
    }
    let n = if missing.len() < fetched.len() {
        missing.len()
    } else {
        fetched.len()
    };
    let ghost orig = cached@;
    let ghost all = fetched@;
    let mut out = cached;
    let mut rest = fetched;
    rest.truncate(n);
    let ghost kept = rest@;
    assert(kept =~= all.take(n as int));
    let mut vals: Vec<V> = Vec::new();
    while rest.len() > 0
        invariant
            vals@ + rest@.reverse() == kept.reverse(),
        decreases rest.len(),
    {
        let v = rest.pop().unwrap();
        proof {
            assert(rest@.push(v).reverse() =~= seq![v] + rest@.reverse());
        }
        vals.push(v);
        assert(vals@ + rest@.reverse() =~= kept.reverse());
    }
    assert(vals@ =~= kept.reverse());
    let mut j: usize = 0;
    while j < n
        invariant
            n == paired_len(missing@.len(), all.len()),
            n <= missing@.len(),
            kept == all.take(n as int),
            j <= n,
            out@.len() == orig.len(),
            vals@ == kept.skip(j as int).reverse(),
            forall|a: int| 0 <= a < missing@.len() ==> #[trigger] missing@[a] < orig.len(),
            forall|a: int, b: int|
                0 <= a < b < missing@.len() ==> #[trigger] missing@[a] < #[trigger] missing@[b],
            forall|i: int|
                0 <= i < orig.len() ==> #[trigger] out@[i] == (if exists|a: int|
                    0 <= a < j && missing@[a] == i {
                    Some(all[choose|a: int| 0 <= a < j && missing@[a] == i])
                } else {
                    orig[i]
                }),
        decreases n - j,
    {
        let v = vals.pop().unwrap();
        proof {
            assert(kept.skip(j as int).reverse().last() == kept.skip(j as int)[0]);
            assert(vals@ =~= kept.skip(j + 1).reverse());
        }
        let ghost before = out@;
        let pos = missing[j];
        out.set(pos, Some(v));
        proof {
            assert(v == all[j as int]);
            assert forall|i: int| 0 <= i < orig.len() implies #[trigger] out@[i] == (if exists|a: int|
                0 <= a < j + 1 && missing@[a] == i {
                Some(all[choose|a: int| 0 <= a < j + 1 && missing@[a] == i])
            } else {
                orig[i]
            }) by {
                if i == pos {
                    assert(missing@[j as int] == i);
                    let a = choose|a: int| 0 <= a < j + 1 && missing@[a] == i;
                    if a < j {
                        assert(missing@[a] < missing@[j as int]);
                    }
                    assert(a == j);
                } else {
                    assert(out@[i] == before[i]);
                    if exists|a: int| 0 <= a < j + 1 && missing@[a] == i {
                        let a = choose|a: int| 0 <= a < j + 1 && missing@[a] == i;
                        assert(a < j);
                        assert(exists|b: int| 0 <= b < j && missing@[b] == i);
                        let b = choose|b: int| 0 <= b < j && missing@[b] == i;
                        if a < b {
                            assert(missing@[a] < missing@[b]);
                        } else if b < a {
                            assert(missing@[b] < missing@[a]);
                        }
                    }
                }
            }
        }
        j = j + 1;
    }
    proof {
        assert forall|i: int| 0 <= i < orig.len() implies #[trigger] out@[i] == merged_slot(
            orig,
            missing@,
            all,
            i,
        ) by {
            if exists|a: int| 0 <= a < n && missing@[a] == i {
                let a = choose|a: int| 0 <= a < n && missing@[a] == i;
                assert(exists|b: int| 0 <= b < j && missing@[b] == i);
            }
        }
    }
    out
}

/// Once a response has been recorded in `Record` or `Auto` mode, a later
/// request with the same key in `Replay` or `Auto` mode is served that
/// response: recording and replaying agree.
pub proof fn law_recorded_response_is_replayed<V>(
    mode: CassetteMode,
    later: CassetteMode,
    m: Map<Seq<char>, V>,
    k: Seq<char>,
    v: V,
)
    requires
        records(mode),
        consults(later),
    ensures
        readable(later, recorded(mode, m, k, v)).contains_key(k),
        readable(later, recorded(mode, m, k, v))[k] == v,
{
}

/// `Off` and `Replay` never change the cassette, and recording one key
/// leaves every other key as it was.
pub proof fn law_recording_is_confined<V>(
    mode: CassetteMode,
    m: Map<Seq<char>, V>,
    k: Seq<char>,
    v: V,
    other: Seq<char>,
)
    requires
        other != k,
    ensures
        recorded(CassetteMode::Off, m, k, v) == m,
        recorded(CassetteMode::Replay, m, k, v) == m,
        recorded(mode, m, k, v).contains_key(other) == m.contains_key(other),
        m.contains_key(other) ==> recorded(mode, m, k, v)[other] == m[other],
{
}

/// After a batch was recorded, each newly fetched text is served its own
/// fetched value, provided the texts of the batch are distinct.
pub proof fn law_batch_recorded_values_are_served<V>(
    m: Map<Seq<char>, V>,
    keys: Seq<String>,
    missing: Seq<usize>,
    fetched: Seq<V>,
    j: int,
)
    requires
        0 <= j < paired_len(missing.len(), fetched.len()),
        forall|a: int| 0 <= a < missing.len() ==> #[trigger] missing[a] < keys.len(),
        forall|a: int, b: int|
            0 <= a < missing.len() && 0 <= b < missing.len() && a != b ==> keys[missing[a] as int]@
                != keys[missing[b] as int]@,
    ensures
        inserted_all(m, zip_keys(keys, missing, fetched)).contains_key(keys[missing[j] as int]@),
        inserted_all(m, zip_keys(keys, missing, fetched))[keys[missing[j] as int]@] == fetched[j],
{
    let pairs = zip_keys(keys, missing, fetched);
    assert forall|a: int, b: int|
        0 <= a < pairs.len() && 0 <= b < pairs.len() && a != b implies pairs[a].0@
        != pairs[b].0@ by {
        assert(pairs[a].0 == keys[missing[a] as int]);
        assert(pairs[b].0 == keys[missing[b] as int]);
    }
    law_last_pair_wins(m, pairs, j);
}

} // verus!
