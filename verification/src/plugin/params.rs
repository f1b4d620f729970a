//! The reverb's parameters: their table, the copy shared between threads,
//! the local copy a thread works on, and the encoding of the saved state.
//!
//! Values are `f32` numbers carried as their bit patterns (see
//! `util::float_bits`).
use crate::plugin::audio::csd::ChannelName;
use crate::util::atomic::AtomicF32;
use crate::util::float_bits::clamp_unit;
use crate::util::float_bits::clamp_unit_bits;
use crate::util::float_bits::float_bits_eq;
use crate::util::float_bits::float_eq;
use crate::util::float_bits::in_unit_interval;
use crate::util::float_bits::is_nan;
use crate::util::float_bits::ONE_BITS;
use crate::util::float_bits::POINT_SIX_BITS;
use crate::util::float_bits::ZERO_BITS;
use std::sync::atomic::Ordering;
use vstd::bytes::*;
use vstd::prelude::*;
use vstd::string::*;

verus! {

/// Number of parameters of the reverb.
pub const PARAM_COUNT: usize = 3;

/// Number of bytes of a saved parameter state.
pub const STATE_LEN: usize = 12;

/// Declares `bincode_next::error::EncodeError` to Verus.
#[verifier::external_type_specification]
#[verifier::external_body]
pub struct ExEncodeError(bincode_next::error::EncodeError);

/// Declares `bincode_next::error::DecodeError` to Verus.
#[verifier::external_type_specification]
#[verifier::external_body]
pub struct ExDecodeError(bincode_next::error::DecodeError);

/// Why a saved state cannot be restored.
#[derive(Debug, Clone, Copy, PartialEq, Eq, Structural)]
pub enum StateError {
    /// The state holds fewer than twelve bytes.
    TooShort,
}

/// The values of the three parameters, as `f32` bit patterns.
pub type ParamValues = [u32; 3];

/// The static description of one parameter.
pub struct ParamSpec {
    /// Label shown under the parameter's knob.
    pub ui_name: &'static str,
    /// The parameter's identifier (its `ClapId` value), equal to its index.
    pub id: u32,
    /// Initial value, as the bit pattern of an `f32`.
    pub init: u32,
}

/// Label of the parameter at `index`: "size", "filter", "mix".
pub open spec fn ui_name_of(index: int) -> Seq<char> {
    if index == 0 {
        "size"@
    } else if index == 1 {
        "filter"@
    } else {
        "mix"@
    }
}

/// Initial value of the parameter at `index`: 0.6, 1.0, 1.0.
pub open spec fn init_of(index: int) -> u32 {
    if index == 0 {
        POINT_SIX_BITS
    } else {
        ONE_BITS
    }
}

/// Bytes of the name of the Csound channel that the parameter at `index`
/// drives: "feedback", "cut_off", "mix".
pub open spec fn channel_bytes_of(index: int) -> Seq<u8> {
    if index == 0 {
        "feedback".spec_bytes()
    } else if index == 1 {
        "cut_off".spec_bytes()
    } else {
        "mix".spec_bytes()
    }
}

/// The entry of the parameter table at `index`.
pub fn param_spec(index: usize) -> (res: ParamSpec)
    requires
        index < PARAM_COUNT,
    ensures
        res.id == index,
        res.ui_name@ == ui_name_of(index as int),
        res.init == init_of(index as int),
{
    if index == 0 {
        ParamSpec { ui_name: "size", id: 0, init: POINT_SIX_BITS }
    } else if index == 1 {
        ParamSpec { ui_name: "filter", id: 1, init: ONE_BITS }
    } else {
        ParamSpec { ui_name: "mix", id: 2, init: ONE_BITS }
    }
}

/// The Csound channel driven by the parameter with identifier `id`, if there
/// is such a parameter.
pub fn param_id_to_name(id: u32) -> (res: Option<ChannelName>)
    ensures
        res is Some <==> id < PARAM_COUNT,
        res matches Some(name) ==> name@ == channel_bytes_of(id as int).push(0u8),
{
    if id == 0 {
        Some(ChannelName::new("feedback"))
    } else if id == 1 {
        Some(ChannelName::new("cut_off"))
    } else if id == 2 {
        Some(ChannelName::new("mix"))
    } else {
        None
    }
}

/// The Csound channels of all parameters, in table order, built once so
/// that the audio thread can look them up without allocating.
pub fn channel_names() -> (res: Vec<ChannelName>)
    ensures
        res@.len() == PARAM_COUNT,
        forall|i: int| 0 <= i < PARAM_COUNT ==> #[trigger] res@[i]@ == channel_bytes_of(i).push(0u8),
{
    let mut names: Vec<ChannelName> = Vec::new();
    let mut i: u32 = 0;
    while i < 3
        invariant
            i <= PARAM_COUNT,
            names@.len() == i,
            forall|j: int| 0 <= j < i ==> #[trigger] names@[j]@ == channel_bytes_of(j).push(0u8),
        decreases PARAM_COUNT - i,
    {
        match param_id_to_name(i) {
            Some(name) => names.push(name),
            None => {},
        }
        i = i + 1;
    }
    names
}

/// A parameter value shared between threads.
pub struct Param {
    value: AtomicF32,
}

impl Param {
    /// The bit pattern the parameter was created holding.
    pub closed spec fn initial(&self) -> u32 {
        self.value.initial()
    }

    /// A parameter holding the value with bit pattern `value`.
    pub fn new(value: u32) -> (res: Param)
        ensures
            res.initial() == value,
    {
        Param { value: AtomicF32::new(value) }
    }

    /// The current value. Other threads may store at any time, so nothing is
    /// promised of it.
    pub fn get(&self) -> (res: u32) {
        self.value.load(Ordering::Relaxed)
    }

    /// Stores `value` clamped to `[0.0, 1.0]`.
    pub fn set(&self, value: u32) {
        let clamped = clamp_unit_bits(value);
        self.value.store(clamped, Ordering::Relaxed)
    }
}

/// The parameters as seen by every thread.
pub struct ReverbParamsShared {
    pub params: Vec<Param>,
}

impl ReverbParamsShared {
    /// Stores `value` (unclamped) into the parameter at `index`.
    pub fn set(&self, index: usize, value: u32)
        requires
            index < self.params@.len(),
    {
        self.params[index].value.store(value, Ordering::Relaxed)
    }

    /// Stores `value` (unclamped) into the parameter with identifier `id`
    /// if there is one here; tells whether there was.
    pub fn set_by_id(&self, id: u32, value: u32) -> (res: bool)
        ensures
            res == (id < self.params@.len()),
    {
        let index = id as usize;
        if index < self.params.len() {
            self.set(index, value);
            true
        } else {
            false
        }
    }

    /// Restores a saved state (see `ReverbParamsLocal::serialize`): the
    /// values read from its first twelve bytes are stored, unclamped, into
    /// the parameters held here (at most three). Fails, storing nothing,
    /// when the state is shorter than twelve bytes. Returns the values read.
    pub fn load_state(&self, bytes: &[u8]) -> (res: Result<ReverbParamsLocal, StateError>)
        ensures
            res is Err <==> bytes@.len() < STATE_LEN,
            res matches Ok(loaded) ==> loaded.params@ == decode_params(bytes@),
    {
        if bytes.len() < STATE_LEN {
            return Err(StateError::TooShort);
        }
        let loaded = ReverbParamsLocal::deserialize(bytes);
        let mut index: usize = 0;
        while index < self.params.len() && index < PARAM_COUNT
            invariant
                index <= PARAM_COUNT,
            decreases PARAM_COUNT - index,
        {
            self.set(index, loaded.params[index]);
            index = index + 1;
        }
        Ok(loaded)
    }

    /// Whether `param_id` names one of the parameters held here.
    pub fn is_valid_param(&self, param_id: u32) -> (res: bool)
        ensures
            res == (param_id < (self.params@.len() as u32)),
    {
        let len = self.params.len() as u32;
        param_id < len
    }

    /// Appends a parameter.
    pub fn push(&mut self, param: Param)
        ensures
            final(self).params@ == old(self).params@.push(param),
    {
        self.params.push(param);
    }
}

impl Default for ReverbParamsShared {
    /// One parameter per entry of the table, at its initial value.
    fn default() -> (res: Self)
        ensures
            res.params@.len() == PARAM_COUNT,
            forall|i: int| 0 <= i < PARAM_COUNT ==> #[trigger] res.params@[i].initial() == init_of(i),
    {
        let mut params: Vec<Param> = Vec::new();
        let mut i: usize = 0;
        while i < PARAM_COUNT
            invariant
                i <= PARAM_COUNT,
                params@.len() == i,
                forall|j: int| 0 <= j < i ==> #[trigger] params@[j].initial() == init_of(j),
            decreases PARAM_COUNT - i,
        {
            let spec = param_spec(i);
            params.push(Param::new(spec.init));
            i = i + 1;
        }
        ReverbParamsShared { params }
    }
}

/// The value of the parameter with identifier `id`, if there is one.
pub open spec fn value_by_id(params: Seq<u32>, id: u32) -> Option<u32> {
    if id < PARAM_COUNT {
        Some(params[id as int])
    } else {
        None
    }
}

/// The values after storing `value` into the parameter with identifier `id`;
/// an unknown identifier changes nothing.
pub open spec fn with_value_by_id(params: Seq<u32>, id: u32, value: u32) -> Seq<u32> {
    if id < PARAM_COUNT {
        params.update(id as int, value)
    } else {
        params
    }
}

/// The local values after taking over the shared values `latest`: each value
/// that differs (by `f32` comparison) from the local one replaces it.
pub open spec fn synced(local: Seq<u32>, latest: Seq<u32>) -> Seq<u32> {
    Seq::new(
        local.len(),
        |i: int|
            if i < latest.len() && !float_eq(latest[i], local[i]) {
                latest[i]
            } else {
                local[i]
            },
    )
}

/// Whether taking over `latest` changes any local value.
pub open spec fn sync_changes(local: Seq<u32>, latest: Seq<u32>) -> bool {
    exists|i: int| 0 <= i < latest.len() && !float_eq(latest[i], local[i])
}

/// The saved state of three values: each as its four little-endian bytes.
pub open spec fn encode_params(values: Seq<u32>) -> Seq<u8> {
    spec_u32_to_le_bytes(values[0]) + spec_u32_to_le_bytes(values[1]) + spec_u32_to_le_bytes(
        values[2],
    )
}

/// The three values read from the first twelve bytes of a saved state.
pub open spec fn decode_params(bytes: Seq<u8>) -> Seq<u32> {
    seq![
        spec_u32_from_le_bytes(bytes.subrange(0, 4)),
        spec_u32_from_le_bytes(bytes.subrange(4, 8)),
        spec_u32_from_le_bytes(bytes.subrange(8, 12)),
    ]
}

/// Calls `bincode_next::encode_into_slice` on three `u32`s, into `dst`
/// taken as a slice, with the standard configuration set to fixed-size
/// integers. The bytes are those of the same values as `f32` bit patterns
/// under the standard configuration: bincode writes an `f32` as the
/// little-endian bytes of its bits, and with fixed-size integers a `u32` the
/// same way. Claimed: with at least twelve bytes of room the call writes the
/// twelve bytes at the front, leaves the rest, and returns `Ok(12)`; with
/// less it returns an error. What the slice holds after an error is not
/// stated.
#[verifier::external_body]
fn encode_values_into_slice(values: ParamValues, dst: &mut Vec<u8>) -> (res: Result<usize, bincode_next::error::EncodeError>)
    ensures
        final(dst)@.len() == old(dst)@.len(),
        old(dst)@.len() >= 12 ==> (res matches Ok(n) && n == 12),
        old(dst)@.len() >= 12 ==> final(dst)@ == encode_params(values@) + old(dst)@.subrange(
            12,
            old(dst)@.len() as int,
        ),
        old(dst)@.len() < 12 ==> res is Err,
{
    bincode_next::encode_into_slice(
        values,
        dst.as_mut_slice(),
        bincode_next::config::standard().with_fixed_int_encoding(),
    )
}

/// Calls `bincode_next::decode_from_slice` for three `u32`s with the
/// standard configuration set to fixed-size integers (the layout of three
/// `f32`s under the standard configuration), keeping the decoded values and
/// dropping the count of bytes read. Claimed: from at least twelve bytes it
/// returns the three little-endian values of the first twelve; from fewer it
/// returns an error.
#[verifier::external_body]
fn decode_values_from_slice(src: &[u8]) -> (res: Result<ParamValues, bincode_next::error::DecodeError>)
    ensures
        res is Ok <==> src@.len() >= 12,
        res matches Ok(values) ==> values@ == decode_params(src@),
{
    match bincode_next::decode_from_slice::<[u32; 3], _>(
        src,
        bincode_next::config::standard().with_fixed_int_encoding(),
    ) {
        Ok((values, _)) => Ok(values),
        Err(e) => Err(e),
    }
}

/// A thread's own copy of the parameter values.
pub struct ReverbParamsLocal {
    pub params: ParamValues,
}

impl ReverbParamsLocal {
    /// A copy of the shared values; places the shared side does not fill
    /// stay at `0.0`.
    pub fn new(shared: &ReverbParamsShared) -> (res: Self)
        requires
            shared.params@.len() <= PARAM_COUNT,
        ensures
            forall|i: int| shared.params@.len() <= i < PARAM_COUNT ==> res.params@[i] == ZERO_BITS,
    {
        let mut params: ParamValues = [ZERO_BITS, ZERO_BITS, ZERO_BITS];
        let mut i: usize = 0;
        while i < shared.params.len()
            invariant
                shared.params@.len() <= PARAM_COUNT,
                i <= shared.params@.len(),
                forall|j: int| i <= j < PARAM_COUNT ==> params@[j] == ZERO_BITS,
            decreases shared.params@.len() - i,
        {
            params[i] = shared.params[i].get();
            i = i + 1;
        }
        ReverbParamsLocal { params }
    }

    /// The value at `index`.
    pub fn get(&self, index: usize) -> (res: u32)
        requires
            index < PARAM_COUNT,
        ensures
            res == self.params@[index as int],
    {
        self.params[index]
    }

    /// Stores `new_value` clamped to `[0.0, 1.0]` at `index`.
    pub fn set(&mut self, index: usize, new_value: u32)
        requires
            index < PARAM_COUNT,
        ensures
            final(self).params@ == old(self).params@.update(index as int, clamp_unit(new_value)),
            in_unit_interval(final(self).params@[index as int]),
    {
        self.params[index] = clamp_unit_bits(new_value);
    }

    /// Publishes the local value at `index` to the shared side and tells
    /// whether it differs (by `f32` comparison) from the value it replaced.
    /// What the shared side held depends on other threads: whatever it was,
    /// the answer is that comparison, so a local NaN always counts as a change.
    pub fn push_updates(&self, index: usize, shared: &ReverbParamsShared) -> (res: bool)
        requires
            index < PARAM_COUNT,
            index < shared.params@.len(),
        ensures
            exists|previous: u32| res == !float_eq(previous, self.params@[index as int]),
    {
        let previous = shared.params[index].value.swap(self.params[index]);
        !float_bits_eq(previous, self.params[index])
    }

    /// Takes over the shared value `latest` for the parameter at `index` if
    /// it differs (by `f32` comparison) from the local one, and tells whether
    /// it did.
    pub fn apply_update(&mut self, index: usize, latest: u32) -> (res: bool)
        requires
            index < PARAM_COUNT,
        ensures
            res == !float_eq(latest, old(self).params@[index as int]),
            final(self).params@ == (if res {
                old(self).params@.update(index as int, latest)
            } else {
                old(self).params@
            }),
    {
        if !float_bits_eq(latest, self.params[index]) {
            self.params[index] = latest;
            true
        } else {
            false
        }
    }

    /// Takes over the shared values `latest` (one per parameter, from the
    /// first): each that differs from the local value replaces it. Tells
    /// whether anything changed.
    pub fn apply_updates(&mut self, latest: &[u32]) -> (res: bool)
        requires
            latest@.len() <= PARAM_COUNT,
        ensures
            final(self).params@ == synced(old(self).params@, latest@),
            res == sync_changes(old(self).params@, latest@),
    {
        let ghost orig = self.params@;
        let mut res = false;
        let mut i: usize = 0;
        while i < latest.len()
            invariant
                latest@.len() <= PARAM_COUNT,
                i <= latest@.len(),
                orig.len() == PARAM_COUNT,
                self.params@ == synced(orig, latest@.subrange(0, i as int)),
                res == sync_changes(orig, latest@.subrange(0, i as int)),
            decreases latest@.len() - i,
        {
            let value = latest[i];
            proof {
                let done = latest@.subrange(0, i as int);
                assert(latest@.subrange(0, i + 1) =~= done.push(value));
                lemma_sync_push(orig, done, value);
            }
            let changed = self.apply_update(i, value);
            res = res || changed;
            i = i + 1;
            assert(self.params@ =~= synced(orig, latest@.subrange(0, i as int)));
        }
        assert(latest@.subrange(0, latest@.len() as int) == latest@);
        res
    }

    /// Takes over the values of the shared side (see `apply_updates`); tells
    /// whether anything changed. What is read depends on other threads.
    pub fn fetch_updates(&mut self, shared: &ReverbParamsShared) -> (res: bool)
        requires
            shared.params@.len() <= PARAM_COUNT,
        ensures
            exists|latest: Seq<u32>|
                #![trigger synced(old(self).params@, latest)]
                latest.len() == shared.params@.len() && final(self).params@ == synced(
                    old(self).params@,
                    latest,
                ) && res == sync_changes(old(self).params@, latest),
    {
        let mut latest: Vec<u32> = Vec::new();
        let mut i: usize = 0;
        while i < shared.params.len()
            invariant
                i <= shared.params@.len(),
                latest@.len() == i,
            decreases shared.params@.len() - i,
        {
            latest.push(shared.params[i].get());
            i = i + 1;
        }
        let res = self.apply_updates(latest.as_slice());
        assert(final(self).params@ == synced(old(self).params@, latest@));
        res
    }

    /// The saved state: the values' bytes as bincode writes `[f32; 3]`.
    pub fn serialize(&self) -> (res: Vec<u8>)
        ensures
            res@ == encode_params(self.params@),
            res@.len() == STATE_LEN,
    {
        let mut res: Vec<u8> = vec![0u8; 12];
        let _ = encode_values_into_slice(self.params, &mut res);
        proof {
            lemma_encode_len(self.params@);
            assert(res@ =~= encode_params(self.params@));
        }
        res
    }

    /// The values read back from a saved state (its first twelve bytes).
    pub fn deserialize(src: &[u8]) -> (res: Self)
        requires
            src@.len() >= STATE_LEN,
        ensures
            res.params@ == decode_params(src@),
    {
        match decode_values_from_slice(src) {
            Ok(params) => ReverbParamsLocal { params },
            Err(_) => ReverbParamsLocal { params: [ZERO_BITS, ZERO_BITS, ZERO_BITS] },
        }
    }

    /// Stores `value` (unclamped) into the parameter with identifier `id`;
    /// an unknown identifier changes nothing.
    pub fn set_by_id(&mut self, id: u32, value: u32)
        ensures
            final(self).params@ == with_value_by_id(old(self).params@, id, value),
    {
        let index = id as usize;
        if index < PARAM_COUNT {
            self.params[index] = value;
        }
    }

    /// The value of the parameter with identifier `id`, if there is one.
    pub fn get_by_id(&self, id: u32) -> (res: Option<u32>)
        ensures
            res == value_by_id(self.params@, id),
    {
        let index = id as usize;
        if index < PARAM_COUNT {
            Some(self.params[index])
        } else {
            None
        }
    }

    /// Whether `id` names a parameter.
    pub fn is_valid_param(&self, id: u32) -> (res: bool)
        ensures
            res == (id < PARAM_COUNT),
    {
        let index = id as usize;
        index < PARAM_COUNT
    }
}

proof fn lemma_sync_push(local: Seq<u32>, done: Seq<u32>, value: u32)
    requires
        done.len() < local.len(),
    ensures
        synced(local, done.push(value)) == synced(local, done).update(
            done.len() as int,
            if !float_eq(value, local[done.len() as int]) {
                value
            } else {
                local[done.len() as int]
            },
        ),
        sync_changes(local, done.push(value)) == (sync_changes(local, done) || !float_eq(
            value,
            local[done.len() as int],
        )),
{
    let pushed = done.push(value);
    assert(synced(local, pushed) =~= synced(local, done).update(
        done.len() as int,
        if !float_eq(value, local[done.len() as int]) {
            value
        } else {
            local[done.len() as int]
        },
    ));
    if sync_changes(local, pushed) {
        let k = choose|k: int| 0 <= k < pushed.len() && !float_eq(pushed[k], local[k]);
        if k < done.len() {
            assert(pushed[k] == done[k]);
        }
    }
    if sync_changes(local, done) {
        let k = choose|k: int| 0 <= k < done.len() && !float_eq(done[k], local[k]);
        assert(pushed[k] == done[k]);
    }
    if !float_eq(value, local[done.len() as int]) {
        assert(pushed[done.len() as int] == value);
    }
}

/// Loading a saved state gives back the values that were saved, and a saved
/// state is always twelve bytes long.
pub proof fn lemma_state_roundtrip(values: Seq<u32>)
    requires
        values.len() == PARAM_COUNT,
    ensures
        encode_params(values).len() == STATE_LEN,
        decode_params(encode_params(values)) == values,
{
    lemma_auto_spec_u32_to_from_le_bytes();
    let bytes = encode_params(values);
    assert(bytes.subrange(0, 4) =~= spec_u32_to_le_bytes(values[0]));
    assert(bytes.subrange(4, 8) =~= spec_u32_to_le_bytes(values[1]));
    assert(bytes.subrange(8, 12) =~= spec_u32_to_le_bytes(values[2]));
    assert(decode_params(bytes) =~= values);
}

/// Saving the values loaded from a state gives back that state's first
/// twelve bytes: the encoding is a one-to-one map between three values and
/// twelve bytes.
pub proof fn lemma_bytes_roundtrip(bytes: Seq<u8>)
    requires
        bytes.len() >= STATE_LEN,
    ensures
        encode_params(decode_params(bytes)) == bytes.subrange(0, 12),
{
    lemma_auto_spec_u32_to_from_le_bytes();
    let values = decode_params(bytes);
    assert(spec_u32_to_le_bytes(values[0]) == bytes.subrange(0, 4));
    assert(spec_u32_to_le_bytes(values[1]) == bytes.subrange(4, 8));
    assert(spec_u32_to_le_bytes(values[2]) == bytes.subrange(8, 12));
    assert(encode_params(values) =~= bytes.subrange(0, 12));
}

/// After a value is stored by identifier, reading that identifier gives it
/// back and every other identifier reads as before; an unknown identifier
/// reads as nothing, before and after.
pub proof fn lemma_set_then_get_by_id(params: Seq<u32>, id: u32, value: u32, other: u32)
    requires
        params.len() == PARAM_COUNT,
    ensures
        value_by_id(with_value_by_id(params, id, value), id) == (if id < PARAM_COUNT {
            Some(value)
        } else {
            None::<u32>
        }),
        other != id ==> value_by_id(with_value_by_id(params, id, value), other) == value_by_id(
            params,
            other,
        ),
        with_value_by_id(params, id, value).len() == PARAM_COUNT,
{
}

/// After taking over shared values, each local value equals the one taken
/// over (as an `f32`, or bit for bit), the others are untouched, and when no
/// shared value is a NaN, taking the same values over again changes nothing.
pub proof fn lemma_sync_settles(local: Seq<u32>, latest: Seq<u32>)
    requires
        local.len() == PARAM_COUNT,
        latest.len() <= PARAM_COUNT,
    ensures
        forall|i: int|
            0 <= i < latest.len() ==> #[trigger] synced(local, latest)[i] == latest[i] || float_eq(
                synced(local, latest)[i],
                latest[i],
            ),
        forall|i: int| latest.len() <= i < PARAM_COUNT ==> #[trigger] synced(local, latest)[i] == local[i],
        (forall|i: int| 0 <= i < latest.len() ==> !is_nan(#[trigger] latest[i])) ==> {
            &&& synced(synced(local, latest), latest) == synced(local, latest)
            &&& !sync_changes(synced(local, latest), latest)
        },
{
    let once = synced(local, latest);
    if forall|i: int| 0 <= i < latest.len() ==> !is_nan(#[trigger] latest[i]) {
        assert forall|i: int| 0 <= i < latest.len() implies float_eq(latest[i], #[trigger] once[i]) by {
            assert(!is_nan(latest[i]));
        }
        assert(synced(once, latest) =~= once);
    }
}

/// Loading a saved state reads its first twelve bytes only: bytes after
/// them do not change the values loaded.
pub proof fn lemma_deserialize_reads_prefix(bytes: Seq<u8>)
    requires
        bytes.len() >= STATE_LEN,
    ensures
        decode_params(bytes) == decode_params(bytes.subrange(0, 12)),
{
    let prefix = bytes.subrange(0, 12);
    assert(prefix.subrange(0, 4) =~= bytes.subrange(0, 4));
    assert(prefix.subrange(4, 8) =~= bytes.subrange(4, 8));
    assert(prefix.subrange(8, 12) =~= bytes.subrange(8, 12));
}

proof fn lemma_encode_len(values: Seq<u32>)
    ensures
        encode_params(values).len() == STATE_LEN,
{
    lemma_auto_spec_u32_to_from_le_bytes();
}

} // verus!
