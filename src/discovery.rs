use vstd::prelude::*;

verus! {

/// UUID of the characteristic that takes command frames.
pub const CONTROL_CHARACTERISTIC: u128 = 0x00010203_0405_0607_0809_0a0b0c0d2b11u128;

/// `p` occurs in `s` as a run of consecutive characters.
pub open spec fn contains_seq(s: Seq<char>, p: Seq<char>) -> bool {
    exists|i: int| 0 <= i && i + p.len() <= s.len() && #[trigger] s.subrange(i, i + p.len()) == p
}

/// Relies on `str::contains` with a string pattern: true exactly when
/// `pattern` occurs in `s` as a substring.
#[verifier::external_body]
fn str_contains(s: &str, pattern: &str) -> (r: bool)
    ensures
        r == contains_seq(s@, pattern@),
{
    s.contains(pattern)
}

/// Some pattern of `patterns` occurs in `name`.
pub open spec fn name_matches_spec(name: Seq<char>, patterns: Seq<String>) -> bool {
    exists|k: int| 0 <= k < patterns.len() && contains_seq(name, #[trigger] patterns[k]@)
}

/// `i` is the first index of `uuids` that holds the control characteristic.
pub open spec fn is_first_control(uuids: Seq<u128>, i: int) -> bool {
    &&& 0 <= i < uuids.len()
    &&& uuids[i] == CONTROL_CHARACTERISTIC
    &&& forall|j: int| 0 <= j < i ==> uuids[j] != CONTROL_CHARACTERISTIC
}

/// Some index of `uuids` holds the control characteristic.
pub open spec fn has_control(uuids: Seq<u128>) -> bool {
    exists|i: int| 0 <= i < uuids.len() && uuids[i] == CONTROL_CHARACTERISTIC
}

/// Why a device was passed over.
#[derive(Clone, Copy, Debug, PartialEq, Eq, Structural)]
pub enum Rejection {
    /// It advertises no local name.
    Unnamed,
    /// Its name holds none of the match patterns.
    NotMatched,
    /// The connection attempt failed.
    ConnectFailed,
    /// It has no control characteristic.
    CharacteristicNotFound,
}

/// Where one device stands in discovery.
#[derive(Clone, Copy, Debug, PartialEq, Eq, Structural)]
pub enum Stage {
    /// Waiting for its advertisement.
    Filtering,
    /// A candidate: the caller connects to it.
    Connecting,
    /// Connected: the caller lists its characteristics.
    Resolving,
    /// Ready to be registered, with the index of its control characteristic
    /// in the list that was handed in.
    Ready(usize),
    /// Passed over; a connected device is disconnected by the caller.
    Rejected(Rejection),
}

/// What the caller observed about a device.
pub enum Event {
    /// Its advertised local name, if any.
    Advertised(Option<String>),
    /// Whether the connection attempt succeeded.
    Connected(bool),
    /// The UUIDs of its characteristics, in the order listed.
    Characteristics(Vec<u128>),
}

/// The stage a device moves to when `event` is observed at `stage`. An event
/// that does not belong to the stage leaves it unchanged.
pub open spec fn stage_after(stage: Stage, event: Event, patterns: Seq<String>) -> Stage {
    match stage {
        Stage::Filtering => match event {
            Event::Advertised(None) => Stage::Rejected(Rejection::Unnamed),
            Event::Advertised(Some(name)) => if name_matches_spec(name@, patterns) {
                Stage::Connecting
            } else {
                Stage::Rejected(Rejection::NotMatched)
            },
            _ => stage,
        },
        Stage::Connecting => match event {
            Event::Connected(true) => Stage::Resolving,
            Event::Connected(false) => Stage::Rejected(Rejection::ConnectFailed),
            _ => stage,
        },
        Stage::Resolving => match event {
            Event::Characteristics(uuids) => if has_control(uuids@) {
                Stage::Ready((choose|i: int| is_first_control(uuids@, i)) as usize)
            } else {
                Stage::Rejected(Rejection::CharacteristicNotFound)
            },
            _ => stage,
        },
        _ => stage,
    }
}

/// Whether some pattern of `patterns` occurs in `name` (case-sensitive).
pub fn name_matches(name: &str, patterns: &Vec<String>) -> (r: bool)
    ensures
        r == name_matches_spec(name@, patterns@),
{
    let mut k: usize = 0;
    while k < patterns.len()
        invariant
            k <= patterns@.len(),
            forall|j: int| 0 <= j < k ==> !contains_seq(name@, #[trigger] patterns@[j]@),
        decreases patterns@.len() - k,
    {
        if str_contains(name, patterns[k].as_str()) {
            return true;
        }
        k = k + 1;
    }
    false
}

/// Index of the first control characteristic in `uuids`, if any.
pub fn find_control_characteristic(uuids: &Vec<u128>) -> (r: Option<usize>)
    ensures
        r is None <==> !has_control(uuids@),
        r is Some ==> is_first_control(uuids@, r->Some_0 as int),
{
    let mut i: usize = 0;
    while i < uuids.len()
        invariant
            i <= uuids@.len(),
            forall|j: int| 0 <= j < i ==> uuids@[j] != CONTROL_CHARACTERISTIC,
        decreases uuids@.len() - i,
    {
        if uuids[i] == CONTROL_CHARACTERISTIC {
            return Some(i);
        }
        i = i + 1;
    }
    None
}

/// The stage a device moves to when `event` is observed at `stage`.
pub fn next_stage(stage: Stage, event: &Event, patterns: &Vec<String>) -> (r: Stage)
    ensures
        r == stage_after(stage, *event, patterns@),
{
    match stage {
        Stage::Filtering => match event {
            Event::Advertised(None) => Stage::Rejected(Rejection::Unnamed),
            Event::Advertised(Some(name)) => if name_matches(name.as_str(), patterns) {
                Stage::Connecting
            } else {
                Stage::Rejected(Rejection::NotMatched)
            },
            _ => stage,
        },
        Stage::Connecting => match event {
            Event::Connected(true) => Stage::Resolving,
            Event::Connected(false) => Stage::Rejected(Rejection::ConnectFailed),
            _ => stage,
        },
        Stage::Resolving => match event {
            Event::Characteristics(uuids) => match find_control_characteristic(uuids) {
                Some(i) => {
                    assert(forall|j: int| is_first_control(uuids@, j) ==> j == i);
                    Stage::Ready(i)
                },
                None => Stage::Rejected(Rejection::CharacteristicNotFound),
            },
            _ => stage,
        },
        _ => stage,
    }
}

/// A device is only ever made ready from the resolving stage, on a
/// characteristic list that holds the control characteristic, and the index
/// it is ready with points at that characteristic. A successful connection
/// alone leads to resolving, never to ready.
pub proof fn lemma_ready_needs_control(stage: Stage, event: Event, patterns: Seq<String>)
    ensures
        stage_after(stage, event, patterns) is Ready && !(stage is Ready) ==> {
            &&& stage == Stage::Resolving
            &&& event is Characteristics
            &&& is_first_control(event->Characteristics_0@, stage_after(stage, event, patterns)->Ready_0 as int)
        },
        stage == Stage::Connecting && event == Event::Connected(true) ==> stage_after(stage, event, patterns) == Stage::Resolving,
{
    if stage_after(stage, event, patterns) is Ready && !(stage is Ready) {
        let v = event->Characteristics_0;
        let u = v@;
        assert(v.len() == u.len());
        assert(has_control(u));
        let i = choose|i: int| 0 <= i < u.len() && u[i] == CONTROL_CHARACTERISTIC;
        lemma_first_control_exists(u, i);
    }
}

proof fn lemma_first_control_exists(u: Seq<u128>, i: int)
    requires
        0 <= i < u.len(),
        u[i] == CONTROL_CHARACTERISTIC,
    ensures
        exists|k: int| is_first_control(u, k),
    decreases i,
{
    if exists|j: int| 0 <= j < i && u[j] == CONTROL_CHARACTERISTIC {
        let j = choose|j: int| 0 <= j < i && u[j] == CONTROL_CHARACTERISTIC;
        lemma_first_control_exists(u, j);
    } else {
        assert(is_first_control(u, i));
    }
}

} // verus!
