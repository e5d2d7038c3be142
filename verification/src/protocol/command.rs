//! Requests sent to the machine and responses decoded from it. Both work on
//! the payload of a packet, without the transport envelope.

use crate::ecam::hardware_enums::{
    EcamAccessory, EcamBeverageId, EcamBeverageTasteType, EcamIngredients, EcamRequestId,
};
use crate::protocol::machine_enum::{MachineEnum, MachineEnumerable};
use vstd::prelude::*;
use vstd::slice::{slice_subrange, slice_to_vec};

verus! {

/// Why a request has no bytes to send.
#[derive(Clone, Copy, Debug, PartialEq, Eq, Structural)]
pub enum EncodeError {
    /// No wire form is known for this request.
    EncodingNotSupported,
}

/// Why a payload could not be decoded.
#[derive(Clone, Copy, Debug, PartialEq, Eq, Structural)]
pub enum DecodeError {
    /// The payload ends before a field that its layout calls for.
    Truncated,
    /// A recipe record starts with this byte, which names no ingredient whose
    /// value width is known.
    UnhandledIngredient(u8),
}

/// A request to the machine.
pub enum Request {
    Brew(BrewRequest),
    Monitor(MonitorRequestVersion),
    State(StateRequest),
    Parameter(ParameterRequest),
    Profile(ProfileRequest),
    /// Bytes that are sent as they are.
    Raw(Vec<u8>),
}

/// The three generations of the monitor request.
#[derive(Clone, Copy, Debug, PartialEq, Eq, Structural)]
pub enum MonitorRequestVersion {
    V0,
    V1,
    V2,
}

/// Queries on profiles and their recipes.
#[derive(Clone, Copy, Debug, PartialEq, Eq, Structural)]
pub enum ProfileRequest {
    GetProfileNames(u8, u8),
    GetRecipeNames(u8, u8),
    /// The quantity of each ingredient of a recipe, by profile and recipe.
    GetRecipeQuantities(u8, u8),
    /// The recipes of a profile, most used first.
    GetRecipePriority(u8),
}

/// Power requests.
#[derive(Clone, Copy, Debug, PartialEq, Eq, Structural)]
pub enum StateRequest {
    TurnOn,
    TurnOff,
}

/// Dispensing requests.
#[derive(Clone, Copy, Debug, PartialEq, Eq, Structural)]
pub enum BrewRequest {
    Coffee,
}

/// Reads and writes of machine parameters.
#[derive(Clone, Copy, Debug, PartialEq, Eq, Structural)]
pub enum ParameterRequest {
    ReadParameter(ParameterId, u8),
    WriteParameter(ParameterId),
}

/// The machine parameters that can be named.
#[derive(Clone, Copy, Debug, PartialEq, Eq, Structural)]
pub enum ParameterId {
    WaterHardness,
}

impl BrewRequest {
    /// The bytes of a dispensing request.
    pub open spec fn encode_spec(self) -> Seq<u8> {
        match self {
            BrewRequest::Coffee => seq![
                0x83,
                0xf0,
                0x02,
                0x01,
                0x01,
                0x00,
                0x67,
                0x02,
                0x02,
                0x00,
                0x00,
                0x06,
            ],
        }
    }

    /// Encodes the request: request id, `0xf0`, beverage, trigger, the
    /// parameters, and the taste type.
    pub fn encode(&self) -> (bytes: Vec<u8>)
        ensures
            bytes@ == self.encode_spec(),
    {
        match self {
            BrewRequest::Coffee => {
                vec![0x83, 0xf0, 0x02, 0x01, 0x01, 0x00, 0x67, 0x02, 0x02, 0x00, 0x00, 0x06]
            },
        }
    }
}

impl MonitorRequestVersion {
    /// The bytes of a monitor request.
    pub open spec fn encode_spec(self) -> Seq<u8> {
        match self {
            MonitorRequestVersion::V0 => seq![0x60, 0x0f],
            MonitorRequestVersion::V1 => seq![0x70, 0x0f],
            MonitorRequestVersion::V2 => seq![0x75, 0x0f],
        }
    }

    /// Encodes the request.
    pub fn encode(&self) -> (bytes: Vec<u8>)
        ensures
            bytes@ == self.encode_spec(),
    {
        match self {
            MonitorRequestVersion::V0 => vec![0x60, 0x0f],
            MonitorRequestVersion::V1 => vec![0x70, 0x0f],
            MonitorRequestVersion::V2 => vec![0x75, 0x0f],
        }
    }
}

impl ParameterRequest {
    /// No parameter request has a known wire form.
    pub open spec fn encode_spec(self) -> Result<Seq<u8>, EncodeError> {
        Err(EncodeError::EncodingNotSupported)
    }

    /// Refuses the request: no wire form is known for it.
    pub fn encode(&self) -> (bytes: Result<Vec<u8>, EncodeError>)
        ensures
            bytes == Err::<Vec<u8>, EncodeError>(EncodeError::EncodingNotSupported),
    {
        Err(EncodeError::EncodingNotSupported)
    }
}

impl ProfileRequest {
    /// The bytes of a profile request: its request id, `0xf0`, then its
    /// arguments.
    pub open spec fn encode_spec(self) -> Seq<u8> {
        match self {
            ProfileRequest::GetProfileNames(a, b) => seq![
                EcamRequestId::ProfileNameRead.code(),
                0xf0,
                a,
                b,
            ],
            ProfileRequest::GetRecipeNames(a, b) => seq![
                EcamRequestId::RecipeNameRead.code(),
                0xf0,
                a,
                b,
            ],
            ProfileRequest::GetRecipeQuantities(a, b) => seq![
                EcamRequestId::RecipeQuantityRead.code(),
                0xf0,
                a,
                b,
            ],
            ProfileRequest::GetRecipePriority(a) => seq![
                EcamRequestId::RecipePriorityRead.code(),
                0xf0,
                a,
            ],
        }
    }

    /// Encodes the request.
    pub fn encode(&self) -> (bytes: Vec<u8>)
        ensures
            bytes@ == self.encode_spec(),
    {
        match self {
            ProfileRequest::GetProfileNames(a, b) => {
                vec![EcamRequestId::ProfileNameRead.to_code(), 0xf0, *a, *b]
            },
            ProfileRequest::GetRecipeNames(a, b) => {
                vec![EcamRequestId::RecipeNameRead.to_code(), 0xf0, *a, *b]
            },
            ProfileRequest::GetRecipeQuantities(a, b) => {
                vec![EcamRequestId::RecipeQuantityRead.to_code(), 0xf0, *a, *b]
            },
            ProfileRequest::GetRecipePriority(a) => {
                vec![EcamRequestId::RecipePriorityRead.to_code(), 0xf0, *a]
            },
        }
    }
}

impl StateRequest {
    /// The bytes of a power request. Turning the machine off has no known
    /// wire form.
    pub open spec fn encode_spec(self) -> Result<Seq<u8>, EncodeError> {
        match self {
            StateRequest::TurnOn => Ok(seq![0x84, 0x0f, 0x02, 0x01]),
            StateRequest::TurnOff => Err(EncodeError::EncodingNotSupported),
        }
    }

    /// Encodes the request, or refuses it where no wire form is known.
    pub fn encode(&self) -> (bytes: Result<Vec<u8>, EncodeError>)
        ensures
            encoded(bytes) == self.encode_spec(),
    {
        match self {
            StateRequest::TurnOn => Ok(vec![0x84, 0x0f, 0x02, 0x01]),
            StateRequest::TurnOff => Err(EncodeError::EncodingNotSupported),
        }
    }
}

/// The outcome of an encoder, with the bytes as a sequence.
pub open spec fn encoded(bytes: Result<Vec<u8>, EncodeError>) -> Result<Seq<u8>, EncodeError> {
    match bytes {
        Ok(v) => Ok(v@),
        Err(e) => Err(e),
    }
}

impl Request {
    /// The bytes of a request, or the reason why it has none.
    pub open spec fn encode_spec(self) -> Result<Seq<u8>, EncodeError> {
        match self {
            Request::Brew(r) => Ok(r.encode_spec()),
            Request::Monitor(r) => Ok(r.encode_spec()),
            Request::State(r) => r.encode_spec(),
            Request::Parameter(r) => r.encode_spec(),
            Request::Profile(r) => Ok(r.encode_spec()),
            Request::Raw(bytes) => Ok(bytes@),
        }
    }

    /// Encodes the request into the payload of a packet. Raw bytes pass
    /// through unchanged; a request without a known wire form is refused.
    pub fn encode(&self) -> (bytes: Result<Vec<u8>, EncodeError>)
        ensures
            encoded(bytes) == self.encode_spec(),
    {
        match self {
            Request::Brew(r) => Ok(r.encode()),
            Request::Monitor(r) => Ok(r.encode()),
            Request::State(r) => r.encode(),
            Request::Parameter(r) => r.encode(),
            Request::Profile(r) => Ok(r.encode()),
            Request::Raw(bytes) => Ok(slice_to_vec(bytes.as_slice())),
        }
    }
}

/// A conversion that reads its source by reference.
pub trait FromRef<T>: Sized {
    /// What relates a source to the value that is made from it.
    spec fn from_ref_spec(x: &T, made: Self) -> bool;

    /// Makes a value from `x`.
    fn from_ref(x: &T) -> (made: Self)
        ensures
            Self::from_ref_spec(x, made),
    ;
}

impl FromRef<Request> for Result<Vec<u8>, EncodeError> {
    /// The bytes of a request are its encoding.
    open spec fn from_ref_spec(x: &Request, made: Self) -> bool {
        encoded(made) == x.encode_spec()
    }

    fn from_ref(x: &Request) -> (made: Self) {
        x.encode()
    }
}

/// The accessory enumeration, by its short name.
pub type Accessory = EcamAccessory;

/// The taste-type enumeration, by its short name.
pub type BeverageTasteType = EcamBeverageTasteType;

/// The ingredient enumeration, by its short name.
pub type Ingredients = EcamIngredients;

/// The state of the machine as it is reported to callers.
#[derive(Clone, Copy, Debug, PartialEq, Eq, Structural)]
pub enum MachineState {
    StandBy,
    TurningOn,
    ShuttingDown,
    Descaling,
    SteamPreparation,
    Recovery,
    Ready,
    /// Ready, with a function in progress.
    Working,
    Rinsing,
    MilkPreparation,
    HotWaterDelivery,
    MilkCleaning,
    /// A state code without a name.
    Unknown(u8),
}

impl MachineState {
    /// The state that a state code names. Every code names one: a code
    /// without a name of its own is carried in `Unknown`.
    pub open spec fn decode_spec(code: u8) -> MachineState {
        match code {
            0 => MachineState::StandBy,
            1 => MachineState::TurningOn,
            2 => MachineState::ShuttingDown,
            4 => MachineState::Descaling,
            5 => MachineState::SteamPreparation,
            6 => MachineState::Recovery,
            7 => MachineState::Ready,
            8 => MachineState::Rinsing,
            10 => MachineState::MilkPreparation,
            11 => MachineState::HotWaterDelivery,
            12 => MachineState::MilkCleaning,
            n => MachineState::Unknown(n),
        }
    }

    /// The state to report for a state code and a progress counter. The
    /// machine uses the code of `Ready` also while a function runs, and only
    /// the progress counter tells the two apart.
    pub open spec fn effective_spec(code: u8, progress: u8) -> MachineState {
        if Self::decode_spec(code) == MachineState::Ready && progress != 0 {
            MachineState::Working
        } else {
            Self::decode_spec(code)
        }
    }

    /// Decodes a state code. Never fails.
    pub fn decode(data: u8) -> (state: Self)
        ensures
            state == Self::decode_spec(data),
    {
        match data {
            0 => MachineState::StandBy,
            1 => MachineState::TurningOn,
            2 => MachineState::ShuttingDown,
            4 => MachineState::Descaling,
            5 => MachineState::SteamPreparation,
            6 => MachineState::Recovery,
            7 => MachineState::Ready,
            8 => MachineState::Rinsing,
            10 => MachineState::MilkPreparation,
            11 => MachineState::HotWaterDelivery,
            12 => MachineState::MilkCleaning,
            n => MachineState::Unknown(n),
        }
    }

    /// The state to report for a state code and a progress counter:
    /// `Working` where the code says `Ready` and the counter is not zero,
    /// else what the code names.
    pub fn effective(code: u8, progress: u8) -> (state: Self)
        ensures
            state == Self::effective_spec(code, progress),
    {
        let state = Self::decode(code);
        if state == MachineState::Ready && progress != 0 {
            MachineState::Working
        } else {
            state
        }
    }

    /// A `Ready` code reports `Working` exactly when the progress counter is
    /// not zero; no other code ever reports `Ready` or `Working`.
    pub proof fn lemma_ready_or_working(code: u8, progress: u8)
        ensures
            Self::decode_spec(code) == MachineState::Ready && progress > 0
                ==> Self::effective_spec(code, progress) == MachineState::Working,
            Self::decode_spec(code) == MachineState::Ready && progress == 0
                ==> Self::effective_spec(code, progress) == MachineState::Ready,
            Self::decode_spec(code) != MachineState::Ready ==> Self::effective_spec(code, progress)
                == Self::decode_spec(code),
            Self::decode_spec(code) != MachineState::Working,
    {
    }
}

/// Length of the header that precedes the fields of a response.
pub const RESPONSE_HEADER_LEN: usize = 2;

/// Shortest payload that holds every field of a monitor response.
pub const MONITOR_STATE_LEN: usize = 12;

/// The state of the machine, decoded from one monitor response.
#[derive(Clone, Debug, PartialEq)]
pub struct MonitorState {
    pub state: MachineState,
    pub accessory: MachineEnum<EcamAccessory>,
    pub progress: u8,
    pub percentage: u8,
    pub load0: u8,
    pub load1: u8,
    /// The payload that this state was decoded from.
    pub raw: Vec<u8>,
}

/// A [`MonitorState`] with its payload as a sequence.
pub struct MonitorStateView {
    pub state: MachineState,
    pub accessory: MachineEnum<EcamAccessory>,
    pub progress: u8,
    pub percentage: u8,
    pub load0: u8,
    pub load1: u8,
    pub raw: Seq<u8>,
}

impl View for MonitorState {
    type V = MonitorStateView;

    open spec fn view(&self) -> MonitorStateView {
        MonitorStateView {
            state: self.state,
            accessory: self.accessory,
            progress: self.progress,
            percentage: self.percentage,
            load0: self.load0,
            load1: self.load1,
            raw: self.raw@,
        }
    }
}

impl MonitorState {
    /// What a monitor payload decodes to. After the two header bytes the
    /// fields stand at fixed offsets: accessory at 0, state at 5, progress at
    /// 6, percentage at 7, and the two loads at 8 and 9.
    pub open spec fn decode_spec(data: Seq<u8>) -> Result<MonitorStateView, DecodeError> {
        if data.len() < MONITOR_STATE_LEN {
            Err(DecodeError::Truncated)
        } else {
            Ok(
                MonitorStateView {
                    state: MachineState::effective_spec(data[7], data[8]),
                    accessory: MachineEnum::<EcamAccessory>::decode_spec(data[2]),
                    progress: data[8],
                    percentage: data[9],
                    load0: data[10],
                    load1: data[11],
                    raw: data,
                },
            )
        }
    }

    /// A monitor payload whose state byte says `Ready` decodes to `Working`
    /// when its progress byte is not zero, and to `Ready` when it is zero.
    pub proof fn lemma_ready_is_told_from_working(data: Seq<u8>)
        requires
            data.len() >= MONITOR_STATE_LEN,
            MachineState::decode_spec(data[7]) == MachineState::Ready,
        ensures
            Self::decode_spec(data) matches Ok(monitor) && monitor.progress == data[8]
                && monitor.state == if data[8] > 0 {
                MachineState::Working
            } else {
                MachineState::Ready
            },
    {
    }

    /// Decodes a monitor payload. Fails only on a payload too short to hold
    /// every field.
    pub fn decode(data: &[u8]) -> (decoded: Result<Self, DecodeError>)
        ensures
            match decoded {
                Ok(state) => Self::decode_spec(data@) == Ok::<MonitorStateView, DecodeError>(
                    state@,
                ),
                Err(e) => Self::decode_spec(data@) == Err::<MonitorStateView, DecodeError>(e),
            },
    {
        if data.len() < MONITOR_STATE_LEN {
            return Err(DecodeError::Truncated);
        }
        Ok(
            MonitorState {
                state: MachineState::effective(data[7], data[8]),
                accessory: MachineEnum::decode(data[2]),
                progress: data[8],
                percentage: data[9],
                load0: data[10],
                load1: data[11],
                raw: slice_to_vec(data),
            },
        )
    }
}

/// One ingredient of a recipe with its quantity or setting.
#[derive(Clone, Copy, Debug, PartialEq, Eq)]
pub struct RecipeData {
    pub ingredient: MachineEnum<EcamIngredients>,
    pub value: u16,
}

/// The value record that recipe harvesting keeps for each ingredient.
pub type RecipeInfo = RecipeData;

/// One ingredient of a recipe with the bounds of its quantity or setting.
#[derive(Clone, Copy, Debug, PartialEq, Eq)]
pub struct RecipeMinMaxInfo {
    pub ingredient: MachineEnum<EcamIngredients>,
    pub min: u16,
    pub value: u16,
    pub max: u16,
}

/// The value of two bytes read as a big-endian number.
pub open spec fn big_endian(hi: u8, lo: u8) -> u16 {
    (hi as int * 256 + lo as int) as u16
}

impl RecipeData {
    /// How many bytes hold the value of an ingredient in a recipe record:
    /// one for settings, two for quantities. The other ingredients do not
    /// occur in recipe records, and no width is known for them.
    pub open spec fn value_width_spec(ingredient: EcamIngredients) -> Option<usize> {
        match ingredient {
            EcamIngredients::Temp
            | EcamIngredients::Taste
            | EcamIngredients::Inversion
            | EcamIngredients::DueXPer
            | EcamIngredients::IndexLength
            | EcamIngredients::Visible
            | EcamIngredients::Accessorio => Some(1),
            EcamIngredients::Coffee | EcamIngredients::Milk | EcamIngredients::HotWater => Some(2),
            _ => None,
        }
    }

    /// How many bytes hold the value of `ingredient` in a recipe record, if
    /// it can occur in one.
    pub fn value_width(ingredient: EcamIngredients) -> (width: Option<usize>)
        ensures
            width == Self::value_width_spec(ingredient),
    {
        match ingredient {
            EcamIngredients::Temp
            | EcamIngredients::Taste
            | EcamIngredients::Inversion
            | EcamIngredients::DueXPer
            | EcamIngredients::IndexLength
            | EcamIngredients::Visible
            | EcamIngredients::Accessorio => Some(1),
            EcamIngredients::Coffee | EcamIngredients::Milk | EcamIngredients::HotWater => Some(2),
            _ => None,
        }
    }

    /// True of the records that a record stream can hold: a named ingredient
    /// of known width, with a value that fits that width.
    pub open spec fn encodable(self) -> bool {
        match self.ingredient {
            MachineEnum::Value(ingredient) => match Self::value_width_spec(ingredient) {
                Some(width) => width == 2 || self.value < 256,
                None => false,
            },
            MachineEnum::Unknown(_) => false,
        }
    }

    /// The bytes of one record: the ingredient's code, then its value in one
    /// byte or in two, high byte first.
    pub open spec fn encode_spec(self) -> Seq<u8> {
        if Self::value_width_spec(self.ingredient->Value_0) == Some(2usize) {
            seq![self.ingredient.encode_spec(), (self.value / 256) as u8, (self.value % 256) as u8]
        } else {
            seq![self.ingredient.encode_spec(), self.value as u8]
        }
    }
}

/// The record stream that holds `records`, one after the other.
pub open spec fn encode_recipe_data_spec(records: Seq<RecipeData>) -> Seq<u8>
    decreases records.len(),
{
    if records.len() == 0 {
        Seq::empty()
    } else {
        records[0].encode_spec() + encode_recipe_data_spec(records.skip(1))
    }
}

/// What a record stream decodes to. Each record starts with an ingredient
/// code, which decides how many value bytes follow. The first record that
/// cannot be read decides the error.
pub open spec fn decode_recipe_data_spec(recipe: Seq<u8>) -> Result<Seq<RecipeData>, DecodeError>
    decreases recipe.len(),
{
    if recipe.len() == 0 {
        Ok(Seq::empty())
    } else {
        match recipe_record_spec(recipe) {
            Err(e) => Err(e),
            Ok((record, width)) => match decode_recipe_data_spec(recipe.skip(1 + width)) {
                Ok(rest) => Ok(seq![record] + rest),
                Err(e) => Err(e),
            },
        }
    }
}

/// The record at the front of a stream that is not empty, and the number of
/// its value bytes.
pub open spec fn recipe_record_spec(recipe: Seq<u8>) -> Result<(RecipeData, int), DecodeError> {
    match EcamIngredients::of_code(recipe[0]) {
        None => Err(DecodeError::UnhandledIngredient(recipe[0])),
        Some(ingredient) => match RecipeData::value_width_spec(ingredient) {
            None => Err(DecodeError::UnhandledIngredient(recipe[0])),
            Some(width) => if recipe.len() < 1 + width {
                Err(DecodeError::Truncated)
            } else {
                let value = if width == 1 {
                    recipe[1] as u16
                } else {
                    big_endian(recipe[1], recipe[2])
                };
                Ok((RecipeData { ingredient: MachineEnum::Value(ingredient), value }, width as int))
            },
        },
    }
}

/// A record stream that holds encodable records decodes to exactly these
/// records: the stream is split where each record ends, whatever mix of
/// one-byte and two-byte values it holds.
pub proof fn lemma_decode_encoded_recipe_data(records: Seq<RecipeData>)
    requires
        forall|i: int| 0 <= i < records.len() ==> (#[trigger] records[i]).encodable(),
    ensures
        decode_recipe_data_spec(encode_recipe_data_spec(records)) == Ok::<
            Seq<RecipeData>,
            DecodeError,
        >(records),
    decreases records.len(),
{
    if records.len() > 0 {
        let first = records[0];
        let rest = records.skip(1);
        let head = first.encode_spec();
        let stream = encode_recipe_data_spec(records);
        let ingredient = first.ingredient->Value_0;
        assert forall|i: int| 0 <= i < rest.len() implies (#[trigger] rest[i]).encodable() by {
            assert(rest[i] == records[i + 1]);
        }
        lemma_decode_encoded_recipe_data(rest);
        EcamIngredients::lemma_of_code_complete(ingredient);
        let width = RecipeData::value_width_spec(ingredient)->Some_0;
        assert(head.len() == 1 + width);
        assert(stream.skip(1 + width) == encode_recipe_data_spec(rest));
        assert(stream[0] == ingredient.code());
        if width == 2 {
            assert(stream[1] == (first.value / 256) as u8);
            assert(stream[2] == (first.value % 256) as u8);
            assert(big_endian(stream[1], stream[2]) == first.value);
        } else {
            assert(stream[1] == first.value as u8);
        }
        assert(recipe_record_spec(stream) == Ok::<(RecipeData, int), DecodeError>(
            (first, width as int),
        ));
        assert(seq![first] + rest == records);
        assert(stream.len() > 0);
    } else {
        assert(records == Seq::<RecipeData>::empty());
    }
}

/// Whatever a record stream decodes to is encodable, and encodes to the
/// stream again: no stream has two readings, and none is read with bytes left
/// over.
pub proof fn lemma_encode_decoded_recipe_data(recipe: Seq<u8>)
    ensures
        decode_recipe_data_spec(recipe) matches Ok(records) ==> {
            &&& encode_recipe_data_spec(records) == recipe
            &&& forall|i: int| 0 <= i < records.len() ==> (#[trigger] records[i]).encodable()
        },
    decreases recipe.len(),
{
    if recipe.len() > 0 {
        if let Ok((record, width)) = recipe_record_spec(recipe) {
            let tail = recipe.skip(1 + width);
            lemma_encode_decoded_recipe_data(tail);
            if let Ok(rest) = decode_recipe_data_spec(tail) {
                let records = seq![record] + rest;
                let ingredient = record.ingredient->Value_0;
                EcamIngredients::lemma_of_code_sound(recipe[0]);
                assert(records[0] == record);
                assert(records.skip(1) == rest);
                if width == 2 {
                    let hi = recipe[1];
                    let lo = recipe[2];
                    assert(record.value == hi as int * 256 + lo as int);
                    assert((record.value / 256) as u8 == hi);
                    assert((record.value % 256) as u8 == lo);
                }
                assert(record.encode_spec() == recipe.take(1 + width));
                assert(recipe.take(1 + width) + tail == recipe);
                assert forall|i: int| 0 <= i < records.len() implies (
                #[trigger] records[i]).encodable() by {
                    if i > 0 {
                        assert(records[i] == rest[i - 1]);
                    }
                }
            }
        }
    } else {
        assert(encode_recipe_data_spec(Seq::<RecipeData>::empty()) == recipe);
    }
}

/// What the machine answers to a profile request.
#[derive(Clone, Debug, PartialEq)]
pub enum ProfileResponse {
    /// The quantities of a recipe: profile, beverage, and one record per
    /// ingredient; `None` where the machine sent no recipe.
    RecipeQuantities(Option<(u8, MachineEnum<EcamBeverageId>, Vec<RecipeData>)>),
    /// The bounds of a recipe: beverage, and one record per ingredient.
    RecipeMinMax(MachineEnum<EcamBeverageId>, Vec<RecipeMinMaxInfo>),
}

/// A [`ProfileResponse`] with its records as sequences.
pub enum ProfileResponseView {
    RecipeQuantities(Option<(u8, MachineEnum<EcamBeverageId>, Seq<RecipeData>)>),
    RecipeMinMax(MachineEnum<EcamBeverageId>, Seq<RecipeMinMaxInfo>),
}

impl View for ProfileResponse {
    type V = ProfileResponseView;

    open spec fn view(&self) -> ProfileResponseView {
        match self {
            ProfileResponse::RecipeQuantities(None) => ProfileResponseView::RecipeQuantities(None),
            ProfileResponse::RecipeQuantities(Some((profile, beverage, records))) => {
                ProfileResponseView::RecipeQuantities(Some((*profile, *beverage, records@)))
            },
            ProfileResponse::RecipeMinMax(beverage, records) => ProfileResponseView::RecipeMinMax(
                *beverage,
                records@,
            ),
        }
    }
}

impl ProfileResponse {
    /// What the payload of a recipe-quantity response decodes to. After the
    /// two header bytes come the profile, the beverage and the record stream;
    /// a payload that ends before the beverage holds no recipe.
    pub open spec fn decode_spec(data: Seq<u8>) -> Result<ProfileResponseView, DecodeError> {
        if data.len() < RESPONSE_HEADER_LEN {
            Err(DecodeError::Truncated)
        } else if data.len() < RESPONSE_HEADER_LEN + 2 {
            Ok(ProfileResponseView::RecipeQuantities(None))
        } else {
            match decode_recipe_data_spec(data.skip(4)) {
                Ok(records) => Ok(
                    ProfileResponseView::RecipeQuantities(
                        Some(
                            (data[2], MachineEnum::<EcamBeverageId>::decode_spec(data[3]), records),
                        ),
                    ),
                ),
                Err(e) => Err(e),
            }
        }
    }

    /// Decodes the payload of a recipe-quantity response. Fails on a payload
    /// shorter than its header and on a record stream that cannot be read.
    pub fn decode(data: &[u8]) -> (decoded: Result<ProfileResponse, DecodeError>)
        ensures
            match decoded {
                Ok(response) => Self::decode_spec(data@) == Ok::<ProfileResponseView, DecodeError>(
                    response@,
                ),
                Err(e) => Self::decode_spec(data@) == Err::<ProfileResponseView, DecodeError>(e),
            },
    {
        if data.len() < RESPONSE_HEADER_LEN {
            return Err(DecodeError::Truncated);
        }
        if data.len() < RESPONSE_HEADER_LEN + 2 {
            return Ok(ProfileResponse::RecipeQuantities(None));
        }
        let stream = slice_subrange(data, 4, data.len());
        proof {
            assert(stream@ == data@.skip(4));
        }
        match Self::decode_recipe_data(stream) {
            Ok(records) => Ok(
                ProfileResponse::RecipeQuantities(
                    Some((data[2], MachineEnum::decode(data[3]), records)),
                ),
            ),
            Err(e) => Err(e),
        }
    }

    /// Decodes a record stream into its records, in order. Fails with
    /// `UnhandledIngredient` at a record whose first byte names no ingredient
    /// of known width, and with `Truncated` where the stream ends inside a
    /// record.
    pub fn decode_recipe_data(recipe: &[u8]) -> (decoded: Result<Vec<RecipeData>, DecodeError>)
        ensures
            match decoded {
                Ok(records) => decode_recipe_data_spec(recipe@) == Ok::<
                    Seq<RecipeData>,
                    DecodeError,
                >(records@),
                Err(e) => decode_recipe_data_spec(recipe@) == Err::<Seq<RecipeData>, DecodeError>(e),
            },
    {
        let mut ingredients: Vec<RecipeData> = Vec::new();
        let mut at: usize = 0;
        proof {
            assert(recipe@.skip(0) == recipe@);
            if let Ok(rest) = decode_recipe_data_spec(recipe@) {
                assert(ingredients@ + rest == rest);
            }
        }
        while at < recipe.len()
            invariant
                at <= recipe@.len(),
                decode_recipe_data_spec(recipe@) == match decode_recipe_data_spec(
                    recipe@.skip(at as int),
                ) {
                    Ok(rest) => Ok::<Seq<RecipeData>, DecodeError>(ingredients@ + rest),
                    Err(e) => Err(e),
                },
            decreases recipe@.len() - at,
        {
            let ghost tail = recipe@.skip(at as int);
            let code: u8 = recipe[at];
            let ingredient = match EcamIngredients::from_code(code) {
                Some(ingredient) => ingredient,
                None => {
                    return Err(DecodeError::UnhandledIngredient(code));
                },
            };
            let width: usize = match RecipeData::value_width(ingredient) {
                Some(width) => width,
                None => {
                    return Err(DecodeError::UnhandledIngredient(code));
                },
            };
            if recipe.len() - at < 1 + width {
                return Err(DecodeError::Truncated);
            }
            let value: u16 = if width == 1 {
                recipe[at + 1] as u16
            } else {
                let hi: u8 = recipe[at + 1];
                let lo: u8 = recipe[at + 2];
                assert(((hi as u16) << 8) | (lo as u16) == (hi as u16) * 256 + (lo as u16))
                    by (bit_vector);
                ((hi as u16) << 8) | (lo as u16)
            };
            let record = RecipeData { ingredient: MachineEnum::Value(ingredient), value };
            proof {
                assert(recipe_record_spec(tail) == Ok::<(RecipeData, int), DecodeError>(
                    (record, width as int),
                ));
                assert(tail.skip(1 + width) == recipe@.skip(at + 1 + width));
                let rest = decode_recipe_data_spec(recipe@.skip(at + 1 + width));
                if let Ok(rest) = rest {
                    assert(ingredients@ + (seq![record] + rest) == ingredients@.push(record)
                        + rest);
                }
            }
            ingredients.push(record);
            at = at + 1 + width;
        }
        proof {
            assert(ingredients@ + Seq::<RecipeData>::empty() == ingredients@);
        }
        Ok(ingredients)
    }
}

/// What a payload from the machine decodes to.
#[derive(Clone, Debug, PartialEq)]
pub enum Response {
    State(MonitorState),
    Profile(ProfileResponse),
    /// A payload of no class that is decoded here.
    Raw,
}

/// A [`Response`] with its bytes and records as sequences.
pub enum ResponseView {
    State(MonitorStateView),
    Profile(ProfileResponseView),
    Raw,
}

impl View for Response {
    type V = ResponseView;

    open spec fn view(&self) -> ResponseView {
        match self {
            Response::State(state) => ResponseView::State(state@),
            Response::Profile(profile) => ResponseView::Profile(profile@),
            Response::Raw => ResponseView::Raw,
        }
    }
}

impl Response {
    /// What a payload decodes to, by its leading byte: the monitor id, on a
    /// payload of more than ten bytes, starts a machine state; the id of the
    /// recipe-quantity request starts a recipe; anything else is left raw.
    pub open spec fn decode_spec(data: Seq<u8>) -> Result<ResponseView, DecodeError> {
        if data.len() == 0 {
            Err(DecodeError::Truncated)
        } else if data[0] == EcamRequestId::MonitorV2.code() && data.len() > 10 {
            match MonitorState::decode_spec(data) {
                Ok(state) => Ok(ResponseView::State(state)),
                Err(e) => Err(e),
            }
        } else if data[0] == EcamRequestId::RecipeQuantityRead.code() {
            match ProfileResponse::decode_spec(data) {
                Ok(profile) => Ok(ResponseView::Profile(profile)),
                Err(e) => Err(e),
            }
        } else {
            Ok(ResponseView::Raw)
        }
    }

    /// Classifies a payload by its leading byte and decodes it. Fails on an
    /// empty payload and where the decoder of its class fails.
    pub fn decode(data: &[u8]) -> (decoded: Result<Response, DecodeError>)
        ensures
            match decoded {
                Ok(response) => Self::decode_spec(data@) == Ok::<ResponseView, DecodeError>(
                    response@,
                ),
                Err(e) => Self::decode_spec(data@) == Err::<ResponseView, DecodeError>(e),
            },
    {
        if data.len() == 0 {
            return Err(DecodeError::Truncated);
        }
        if data[0] == EcamRequestId::MonitorV2.to_code() && data.len() > 10 {
            match MonitorState::decode(data) {
                Ok(state) => Ok(Response::State(state)),
                Err(e) => Err(e),
            }
        } else if data[0] == EcamRequestId::RecipeQuantityRead.to_code() {
            match ProfileResponse::decode(data) {
                Ok(profile) => Ok(Response::Profile(profile)),
                Err(e) => Err(e),
            }
        } else {
            Ok(Response::Raw)
        }
    }
}

} // verus!
