//! Hardware enumerations of the machine and the wire code of each value.

use crate::protocol::machine_enum::MachineEnumerable;
use vstd::prelude::*;

verus! {

/// Ingredients of a recipe, as the machine numbers them.
#[derive(Clone, Copy, Debug, PartialEq, Eq, Structural, Hash)]
pub enum EcamIngredients {
    Temp,
    Coffee,
    Taste,
    Granulometry,
    Blend,
    InfusionSpeed,
    Preinfusion,
    Crema,
    DueXPer,
    Milk,
    MilkTemp,
    MilkFroth,
    Inversion,
    TheTemp,
    TheProfile,
    HotWater,
    MixVelocity,
    MixDuration,
    DensityMultiBeverage,
    TempMultiBeverage,
    DecalcType,
    TempRisciaquo,
    WaterRisciaquo,
    CleanType,
    Programmable,
    Visible,
    VisibleInProgramming,
    IndexLength,
    Accessorio,
}

impl MachineEnumerable for EcamIngredients {
    open spec fn code(self) -> u8 {
        match self {
            EcamIngredients::Temp => 0,
            EcamIngredients::Coffee => 1,
            EcamIngredients::Taste => 2,
            EcamIngredients::Granulometry => 3,
            EcamIngredients::Blend => 4,
            EcamIngredients::InfusionSpeed => 5,
            EcamIngredients::Preinfusion => 6,
            EcamIngredients::Crema => 7,
            EcamIngredients::DueXPer => 8,
            EcamIngredients::Milk => 9,
            EcamIngredients::MilkTemp => 10,
            EcamIngredients::MilkFroth => 11,
            EcamIngredients::Inversion => 12,
            EcamIngredients::TheTemp => 13,
            EcamIngredients::TheProfile => 14,
            EcamIngredients::HotWater => 15,
            EcamIngredients::MixVelocity => 16,
            EcamIngredients::MixDuration => 17,
            EcamIngredients::DensityMultiBeverage => 18,
            EcamIngredients::TempMultiBeverage => 19,
            EcamIngredients::DecalcType => 20,
            EcamIngredients::TempRisciaquo => 21,
            EcamIngredients::WaterRisciaquo => 22,
            EcamIngredients::CleanType => 23,
            EcamIngredients::Programmable => 24,
            EcamIngredients::Visible => 25,
            EcamIngredients::VisibleInProgramming => 26,
            EcamIngredients::IndexLength => 27,
            EcamIngredients::Accessorio => 28,
        }
    }

    open spec fn of_code(code: u8) -> Option<Self> {
        match code {
            0 => Some(EcamIngredients::Temp),
            1 => Some(EcamIngredients::Coffee),
            2 => Some(EcamIngredients::Taste),
            3 => Some(EcamIngredients::Granulometry),
            4 => Some(EcamIngredients::Blend),
            5 => Some(EcamIngredients::InfusionSpeed),
            6 => Some(EcamIngredients::Preinfusion),
            7 => Some(EcamIngredients::Crema),
            8 => Some(EcamIngredients::DueXPer),
            9 => Some(EcamIngredients::Milk),
            10 => Some(EcamIngredients::MilkTemp),
            11 => Some(EcamIngredients::MilkFroth),
            12 => Some(EcamIngredients::Inversion),
            13 => Some(EcamIngredients::TheTemp),
            14 => Some(EcamIngredients::TheProfile),
            15 => Some(EcamIngredients::HotWater),
            16 => Some(EcamIngredients::MixVelocity),
            17 => Some(EcamIngredients::MixDuration),
            18 => Some(EcamIngredients::DensityMultiBeverage),
            19 => Some(EcamIngredients::TempMultiBeverage),
            20 => Some(EcamIngredients::DecalcType),
            21 => Some(EcamIngredients::TempRisciaquo),
            22 => Some(EcamIngredients::WaterRisciaquo),
            23 => Some(EcamIngredients::CleanType),
            24 => Some(EcamIngredients::Programmable),
            25 => Some(EcamIngredients::Visible),
            26 => Some(EcamIngredients::VisibleInProgramming),
            27 => Some(EcamIngredients::IndexLength),
            28 => Some(EcamIngredients::Accessorio),
            _ => None,
        }
    }

    proof fn lemma_of_code_sound(code: u8) {
    }

    proof fn lemma_of_code_complete(v: Self) {
    }

    fn to_code(&self) -> (code: u8) {
        match self {
            EcamIngredients::Temp => 0,
            EcamIngredients::Coffee => 1,
            EcamIngredients::Taste => 2,
            EcamIngredients::Granulometry => 3,
            EcamIngredients::Blend => 4,
            EcamIngredients::InfusionSpeed => 5,
            EcamIngredients::Preinfusion => 6,
            EcamIngredients::Crema => 7,
            EcamIngredients::DueXPer => 8,
            EcamIngredients::Milk => 9,
            EcamIngredients::MilkTemp => 10,
            EcamIngredients::MilkFroth => 11,
            EcamIngredients::Inversion => 12,
            EcamIngredients::TheTemp => 13,
            EcamIngredients::TheProfile => 14,
            EcamIngredients::HotWater => 15,
            EcamIngredients::MixVelocity => 16,
            EcamIngredients::MixDuration => 17,
            EcamIngredients::DensityMultiBeverage => 18,
            EcamIngredients::TempMultiBeverage => 19,
            EcamIngredients::DecalcType => 20,
            EcamIngredients::TempRisciaquo => 21,
            EcamIngredients::WaterRisciaquo => 22,
            EcamIngredients::CleanType => 23,
            EcamIngredients::Programmable => 24,
            EcamIngredients::Visible => 25,
            EcamIngredients::VisibleInProgramming => 26,
            EcamIngredients::IndexLength => 27,
            EcamIngredients::Accessorio => 28,
        }
    }

    fn from_code(code: u8) -> (v: Option<Self>) {
        match code {
            0 => Some(EcamIngredients::Temp),
            1 => Some(EcamIngredients::Coffee),
            2 => Some(EcamIngredients::Taste),
            3 => Some(EcamIngredients::Granulometry),
            4 => Some(EcamIngredients::Blend),
            5 => Some(EcamIngredients::InfusionSpeed),
            6 => Some(EcamIngredients::Preinfusion),
            7 => Some(EcamIngredients::Crema),
            8 => Some(EcamIngredients::DueXPer),
            9 => Some(EcamIngredients::Milk),
            10 => Some(EcamIngredients::MilkTemp),
            11 => Some(EcamIngredients::MilkFroth),
            12 => Some(EcamIngredients::Inversion),
            13 => Some(EcamIngredients::TheTemp),
            14 => Some(EcamIngredients::TheProfile),
            15 => Some(EcamIngredients::HotWater),
            16 => Some(EcamIngredients::MixVelocity),
            17 => Some(EcamIngredients::MixDuration),
            18 => Some(EcamIngredients::DensityMultiBeverage),
            19 => Some(EcamIngredients::TempMultiBeverage),
            20 => Some(EcamIngredients::DecalcType),
            21 => Some(EcamIngredients::TempRisciaquo),
            22 => Some(EcamIngredients::WaterRisciaquo),
            23 => Some(EcamIngredients::CleanType),
            24 => Some(EcamIngredients::Programmable),
            25 => Some(EcamIngredients::Visible),
            26 => Some(EcamIngredients::VisibleInProgramming),
            27 => Some(EcamIngredients::IndexLength),
            28 => Some(EcamIngredients::Accessorio),
            _ => None,
        }
    }
}

/// Beverage preparation mode.
#[derive(Clone, Copy, Debug, PartialEq, Eq, Structural, Hash)]
pub enum EcamBeverageTasteType {
    Delete,
    Save,
    Prepare,
    PrepareAndSave,
    SaveInversion,
    PrepareInversion,
    PrepareAndSaveInversion,
}

impl MachineEnumerable for EcamBeverageTasteType {
    open spec fn code(self) -> u8 {
        match self {
            EcamBeverageTasteType::Delete => 0,
            EcamBeverageTasteType::Save => 1,
            EcamBeverageTasteType::Prepare => 2,
            EcamBeverageTasteType::PrepareAndSave => 3,
            EcamBeverageTasteType::SaveInversion => 5,
            EcamBeverageTasteType::PrepareInversion => 6,
            EcamBeverageTasteType::PrepareAndSaveInversion => 7,
        }
    }

    open spec fn of_code(code: u8) -> Option<Self> {
        match code {
            0 => Some(EcamBeverageTasteType::Delete),
            1 => Some(EcamBeverageTasteType::Save),
            2 => Some(EcamBeverageTasteType::Prepare),
            3 => Some(EcamBeverageTasteType::PrepareAndSave),
            5 => Some(EcamBeverageTasteType::SaveInversion),
            6 => Some(EcamBeverageTasteType::PrepareInversion),
            7 => Some(EcamBeverageTasteType::PrepareAndSaveInversion),
            _ => None,
        }
    }

    proof fn lemma_of_code_sound(code: u8) {
    }

    proof fn lemma_of_code_complete(v: Self) {
    }

    fn to_code(&self) -> (code: u8) {
        match self {
            EcamBeverageTasteType::Delete => 0,
            EcamBeverageTasteType::Save => 1,
            EcamBeverageTasteType::Prepare => 2,
            EcamBeverageTasteType::PrepareAndSave => 3,
            EcamBeverageTasteType::SaveInversion => 5,
            EcamBeverageTasteType::PrepareInversion => 6,
            EcamBeverageTasteType::PrepareAndSaveInversion => 7,
        }
    }

    fn from_code(code: u8) -> (v: Option<Self>) {
        match code {
            0 => Some(EcamBeverageTasteType::Delete),
            1 => Some(EcamBeverageTasteType::Save),
            2 => Some(EcamBeverageTasteType::Prepare),
            3 => Some(EcamBeverageTasteType::PrepareAndSave),
            5 => Some(EcamBeverageTasteType::SaveInversion),
            6 => Some(EcamBeverageTasteType::PrepareInversion),
            7 => Some(EcamBeverageTasteType::PrepareAndSaveInversion),
            _ => None,
        }
    }
}

/// Operation mode of a dispensing request.
#[derive(Clone, Copy, Debug, PartialEq, Eq, Structural, Hash)]
pub enum EcamOperationTrigger {
    DontCare,
    Start,
    StartProgramOrStopV2,
    NextStep,
    Stop,
    StopProgram,
    ExitProgramOk,
    AdvancedMode,
}

impl MachineEnumerable for EcamOperationTrigger {
    open spec fn code(self) -> u8 {
        match self {
            EcamOperationTrigger::DontCare => 0,
            EcamOperationTrigger::Start => 1,
            EcamOperationTrigger::StartProgramOrStopV2 => 2,
            EcamOperationTrigger::NextStep => 3,
            EcamOperationTrigger::Stop => 4,
            EcamOperationTrigger::StopProgram => 5,
            EcamOperationTrigger::ExitProgramOk => 6,
            EcamOperationTrigger::AdvancedMode => 7,
        }
    }

    open spec fn of_code(code: u8) -> Option<Self> {
        match code {
            0 => Some(EcamOperationTrigger::DontCare),
            1 => Some(EcamOperationTrigger::Start),
            2 => Some(EcamOperationTrigger::StartProgramOrStopV2),
            3 => Some(EcamOperationTrigger::NextStep),
            4 => Some(EcamOperationTrigger::Stop),
            5 => Some(EcamOperationTrigger::StopProgram),
            6 => Some(EcamOperationTrigger::ExitProgramOk),
            7 => Some(EcamOperationTrigger::AdvancedMode),
            _ => None,
        }
    }

    proof fn lemma_of_code_sound(code: u8) {
    }

    proof fn lemma_of_code_complete(v: Self) {
    }

    fn to_code(&self) -> (code: u8) {
        match self {
            EcamOperationTrigger::DontCare => 0,
            EcamOperationTrigger::Start => 1,
            EcamOperationTrigger::StartProgramOrStopV2 => 2,
            EcamOperationTrigger::NextStep => 3,
            EcamOperationTrigger::Stop => 4,
            EcamOperationTrigger::StopProgram => 5,
            EcamOperationTrigger::ExitProgramOk => 6,
            EcamOperationTrigger::AdvancedMode => 7,
        }
    }

    fn from_code(code: u8) -> (v: Option<Self>) {
        match code {
            0 => Some(EcamOperationTrigger::DontCare),
            1 => Some(EcamOperationTrigger::Start),
            2 => Some(EcamOperationTrigger::StartProgramOrStopV2),
            3 => Some(EcamOperationTrigger::NextStep),
            4 => Some(EcamOperationTrigger::Stop),
            5 => Some(EcamOperationTrigger::StopProgram),
            6 => Some(EcamOperationTrigger::ExitProgramOk),
            7 => Some(EcamOperationTrigger::AdvancedMode),
            _ => None,
        }
    }
}

/// Request and answer ids: the leading byte of a packet's payload.
#[derive(Clone, Copy, Debug, PartialEq, Eq, Structural, Hash)]
pub enum EcamRequestId {
    SetBtMode,
    MonitorV0,
    MonitorV1,
    MonitorV2,
    BeverageDispensingMode,
    ParameterWrite,
    ParameterRead,
    ParameterReadExt,
    Checksum,
    RecipeNameRead,
    RecipeNameWrite,
    RecipeQuantityRead,
    RecipePriorityRead,
    ProfileSelection,
    ProfileNameRead,
    PinActivation,
    PinSet,
}

impl MachineEnumerable for EcamRequestId {
    open spec fn code(self) -> u8 {
        match self {
            EcamRequestId::SetBtMode => 17,
            EcamRequestId::MonitorV0 => 96,
            EcamRequestId::MonitorV1 => 112,
            EcamRequestId::MonitorV2 => 117,
            EcamRequestId::BeverageDispensingMode => 130,
            EcamRequestId::ParameterWrite => 144,
            EcamRequestId::ParameterRead => 149,
            EcamRequestId::ParameterReadExt => 161,
            EcamRequestId::Checksum => 163,
            EcamRequestId::RecipeNameRead => 164,
            EcamRequestId::RecipeNameWrite => 165,
            EcamRequestId::RecipeQuantityRead => 166,
            EcamRequestId::RecipePriorityRead => 168,
            EcamRequestId::ProfileSelection => 169,
            EcamRequestId::ProfileNameRead => 170,
            EcamRequestId::PinActivation => 176,
            EcamRequestId::PinSet => 177,
        }
    }

    open spec fn of_code(code: u8) -> Option<Self> {
        match code {
            17 => Some(EcamRequestId::SetBtMode),
            96 => Some(EcamRequestId::MonitorV0),
            112 => Some(EcamRequestId::MonitorV1),
            117 => Some(EcamRequestId::MonitorV2),
            130 => Some(EcamRequestId::BeverageDispensingMode),
            144 => Some(EcamRequestId::ParameterWrite),
            149 => Some(EcamRequestId::ParameterRead),
            161 => Some(EcamRequestId::ParameterReadExt),
            163 => Some(EcamRequestId::Checksum),
            164 => Some(EcamRequestId::RecipeNameRead),
            165 => Some(EcamRequestId::RecipeNameWrite),
            166 => Some(EcamRequestId::RecipeQuantityRead),
            168 => Some(EcamRequestId::RecipePriorityRead),
            169 => Some(EcamRequestId::ProfileSelection),
            170 => Some(EcamRequestId::ProfileNameRead),
            176 => Some(EcamRequestId::PinActivation),
            177 => Some(EcamRequestId::PinSet),
            _ => None,
        }
    }

    proof fn lemma_of_code_sound(code: u8) {
    }

    proof fn lemma_of_code_complete(v: Self) {
    }

    fn to_code(&self) -> (code: u8) {
        match self {
            EcamRequestId::SetBtMode => 17,
            EcamRequestId::MonitorV0 => 96,
            EcamRequestId::MonitorV1 => 112,
            EcamRequestId::MonitorV2 => 117,
            EcamRequestId::BeverageDispensingMode => 130,
            EcamRequestId::ParameterWrite => 144,
            EcamRequestId::ParameterRead => 149,
            EcamRequestId::ParameterReadExt => 161,
            EcamRequestId::Checksum => 163,
            EcamRequestId::RecipeNameRead => 164,
            EcamRequestId::RecipeNameWrite => 165,
            EcamRequestId::RecipeQuantityRead => 166,
            EcamRequestId::RecipePriorityRead => 168,
            EcamRequestId::ProfileSelection => 169,
            EcamRequestId::ProfileNameRead => 170,
            EcamRequestId::PinActivation => 176,
            EcamRequestId::PinSet => 177,
        }
    }

    fn from_code(code: u8) -> (v: Option<Self>) {
        match code {
            17 => Some(EcamRequestId::SetBtMode),
            96 => Some(EcamRequestId::MonitorV0),
            112 => Some(EcamRequestId::MonitorV1),
            117 => Some(EcamRequestId::MonitorV2),
            130 => Some(EcamRequestId::BeverageDispensingMode),
            144 => Some(EcamRequestId::ParameterWrite),
            149 => Some(EcamRequestId::ParameterRead),
            161 => Some(EcamRequestId::ParameterReadExt),
            163 => Some(EcamRequestId::Checksum),
            164 => Some(EcamRequestId::RecipeNameRead),
            165 => Some(EcamRequestId::RecipeNameWrite),
            166 => Some(EcamRequestId::RecipeQuantityRead),
            168 => Some(EcamRequestId::RecipePriorityRead),
            169 => Some(EcamRequestId::ProfileSelection),
            170 => Some(EcamRequestId::ProfileNameRead),
            176 => Some(EcamRequestId::PinActivation),
            177 => Some(EcamRequestId::PinSet),
            _ => None,
        }
    }
}

/// Beverage temperature setting.
#[derive(Clone, Copy, Debug, PartialEq, Eq, Structural, Hash)]
pub enum EcamTemperature {
    Low,
    Mid,
    High,
    VeryHigh,
}

impl MachineEnumerable for EcamTemperature {
    open spec fn code(self) -> u8 {
        match self {
            EcamTemperature::Low => 0,
            EcamTemperature::Mid => 1,
            EcamTemperature::High => 2,
            EcamTemperature::VeryHigh => 3,
        }
    }

    open spec fn of_code(code: u8) -> Option<Self> {
        match code {
            0 => Some(EcamTemperature::Low),
            1 => Some(EcamTemperature::Mid),
            2 => Some(EcamTemperature::High),
            3 => Some(EcamTemperature::VeryHigh),
            _ => None,
        }
    }

    proof fn lemma_of_code_sound(code: u8) {
    }

    proof fn lemma_of_code_complete(v: Self) {
    }

    fn to_code(&self) -> (code: u8) {
        match self {
            EcamTemperature::Low => 0,
            EcamTemperature::Mid => 1,
            EcamTemperature::High => 2,
            EcamTemperature::VeryHigh => 3,
        }
    }

    fn from_code(code: u8) -> (v: Option<Self>) {
        match code {
            0 => Some(EcamTemperature::Low),
            1 => Some(EcamTemperature::Mid),
            2 => Some(EcamTemperature::High),
            3 => Some(EcamTemperature::VeryHigh),
            _ => None,
        }
    }
}

/// Strength of a beverage.
#[derive(Clone, Copy, Debug, PartialEq, Eq, Structural, Hash)]
pub enum EcamBeverageTaste {
    Preground,
    ExtraMild,
    Mild,
    Normal,
    Strong,
    ExtraStrong,
}

impl MachineEnumerable for EcamBeverageTaste {
    open spec fn code(self) -> u8 {
        match self {
            EcamBeverageTaste::Preground => 0,
            EcamBeverageTaste::ExtraMild => 1,
            EcamBeverageTaste::Mild => 2,
            EcamBeverageTaste::Normal => 3,
            EcamBeverageTaste::Strong => 4,
            EcamBeverageTaste::ExtraStrong => 5,
        }
    }

    open spec fn of_code(code: u8) -> Option<Self> {
        match code {
            0 => Some(EcamBeverageTaste::Preground),
            1 => Some(EcamBeverageTaste::ExtraMild),
            2 => Some(EcamBeverageTaste::Mild),
            3 => Some(EcamBeverageTaste::Normal),
            4 => Some(EcamBeverageTaste::Strong),
            5 => Some(EcamBeverageTaste::ExtraStrong),
            _ => None,
        }
    }

    proof fn lemma_of_code_sound(code: u8) {
    }

    proof fn lemma_of_code_complete(v: Self) {
    }

    fn to_code(&self) -> (code: u8) {
        match self {
            EcamBeverageTaste::Preground => 0,
            EcamBeverageTaste::ExtraMild => 1,
            EcamBeverageTaste::Mild => 2,
            EcamBeverageTaste::Normal => 3,
            EcamBeverageTaste::Strong => 4,
            EcamBeverageTaste::ExtraStrong => 5,
        }
    }

    fn from_code(code: u8) -> (v: Option<Self>) {
        match code {
            0 => Some(EcamBeverageTaste::Preground),
            1 => Some(EcamBeverageTaste::ExtraMild),
            2 => Some(EcamBeverageTaste::Mild),
            3 => Some(EcamBeverageTaste::Normal),
            4 => Some(EcamBeverageTaste::Strong),
            5 => Some(EcamBeverageTaste::ExtraStrong),
            _ => None,
        }
    }
}

/// Machine state, as the monitor packet reports it.
#[derive(Clone, Copy, Debug, PartialEq, Eq, Structural, Hash)]
pub enum EcamMachineState {
    StandBy,
    TurningOn,
    ShuttingDown,
    Descaling,
    SteamPreparation,
    Recovery,
    Ready,
    Rinsing,
    MilkPreparation,
    HotWaterDelivery,
    MilkCleaning,
    ChocolatePreparation,
}

impl MachineEnumerable for EcamMachineState {
    open spec fn code(self) -> u8 {
        match self {
            EcamMachineState::StandBy => 0,
            EcamMachineState::TurningOn => 1,
            EcamMachineState::ShuttingDown => 2,
            EcamMachineState::Descaling => 4,
            EcamMachineState::SteamPreparation => 5,
            EcamMachineState::Recovery => 6,
            EcamMachineState::Ready => 7,
            EcamMachineState::Rinsing => 8,
            EcamMachineState::MilkPreparation => 10,
            EcamMachineState::HotWaterDelivery => 11,
            EcamMachineState::MilkCleaning => 12,
            EcamMachineState::ChocolatePreparation => 16,
        }
    }

    open spec fn of_code(code: u8) -> Option<Self> {
        match code {
            0 => Some(EcamMachineState::StandBy),
            1 => Some(EcamMachineState::TurningOn),
            2 => Some(EcamMachineState::ShuttingDown),
            4 => Some(EcamMachineState::Descaling),
            5 => Some(EcamMachineState::SteamPreparation),
            6 => Some(EcamMachineState::Recovery),
            7 => Some(EcamMachineState::Ready),
            8 => Some(EcamMachineState::Rinsing),
            10 => Some(EcamMachineState::MilkPreparation),
            11 => Some(EcamMachineState::HotWaterDelivery),
            12 => Some(EcamMachineState::MilkCleaning),
            16 => Some(EcamMachineState::ChocolatePreparation),
            _ => None,
        }
    }

    proof fn lemma_of_code_sound(code: u8) {
    }

    proof fn lemma_of_code_complete(v: Self) {
    }

    fn to_code(&self) -> (code: u8) {
        match self {
            EcamMachineState::StandBy => 0,
            EcamMachineState::TurningOn => 1,
            EcamMachineState::ShuttingDown => 2,
            EcamMachineState::Descaling => 4,
            EcamMachineState::SteamPreparation => 5,
            EcamMachineState::Recovery => 6,
            EcamMachineState::Ready => 7,
            EcamMachineState::Rinsing => 8,
            EcamMachineState::MilkPreparation => 10,
            EcamMachineState::HotWaterDelivery => 11,
            EcamMachineState::MilkCleaning => 12,
            EcamMachineState::ChocolatePreparation => 16,
        }
    }

    fn from_code(code: u8) -> (v: Option<Self>) {
        match code {
            0 => Some(EcamMachineState::StandBy),
            1 => Some(EcamMachineState::TurningOn),
            2 => Some(EcamMachineState::ShuttingDown),
            4 => Some(EcamMachineState::Descaling),
            5 => Some(EcamMachineState::SteamPreparation),
            6 => Some(EcamMachineState::Recovery),
            7 => Some(EcamMachineState::Ready),
            8 => Some(EcamMachineState::Rinsing),
            10 => Some(EcamMachineState::MilkPreparation),
            11 => Some(EcamMachineState::HotWaterDelivery),
            12 => Some(EcamMachineState::MilkCleaning),
            16 => Some(EcamMachineState::ChocolatePreparation),
            _ => None,
        }
    }
}

/// Accessory attached to the machine.
#[derive(Clone, Copy, Debug, PartialEq, Eq, Structural, Hash)]
pub enum EcamAccessory {
    Absent,
    Water,
    Milk,
    Chocolate,
    MilkClean,
}

impl MachineEnumerable for EcamAccessory {
    open spec fn code(self) -> u8 {
        match self {
            EcamAccessory::Absent => 0,
            EcamAccessory::Water => 1,
            EcamAccessory::Milk => 2,
            EcamAccessory::Chocolate => 3,
            EcamAccessory::MilkClean => 4,
        }
    }

    open spec fn of_code(code: u8) -> Option<Self> {
        match code {
            0 => Some(EcamAccessory::Absent),
            1 => Some(EcamAccessory::Water),
            2 => Some(EcamAccessory::Milk),
            3 => Some(EcamAccessory::Chocolate),
            4 => Some(EcamAccessory::MilkClean),
            _ => None,
        }
    }

    proof fn lemma_of_code_sound(code: u8) {
    }

    proof fn lemma_of_code_complete(v: Self) {
    }

    fn to_code(&self) -> (code: u8) {
        match self {
            EcamAccessory::Absent => 0,
            EcamAccessory::Water => 1,
            EcamAccessory::Milk => 2,
            EcamAccessory::Chocolate => 3,
            EcamAccessory::MilkClean => 4,
        }
    }

    fn from_code(code: u8) -> (v: Option<Self>) {
        match code {
            0 => Some(EcamAccessory::Absent),
            1 => Some(EcamAccessory::Water),
            2 => Some(EcamAccessory::Milk),
            3 => Some(EcamAccessory::Chocolate),
            4 => Some(EcamAccessory::MilkClean),
            _ => None,
        }
    }
}

/// The beverages of the machine's catalog.
#[derive(Clone, Copy, Debug, PartialEq, Eq, Structural, Hash)]
pub enum EcamBeverageId {
    EspressoCoffee,
    RegularCoffee,
    LongCoffee,
    EspressoCoffee2X,
    DoppioPlus,
    Americano,
    Cappuccino,
    LatteMacchiato,
    CaffeLatte,
    FlatWhite,
    EspressoMacchiato,
    HotMilk,
    CappuccinoDoppioPlus,
    ColdMilk,
    CappuccinoReverse,
    HotWater,
    Steam,
    Ciocco,
    Ristretto,
    LongEspresso,
    CoffeeCream,
    Tea,
    CoffeePot,
    Cortado,
    LongBlack,
    TravelMug,
    BrewOverIce,
}

impl MachineEnumerable for EcamBeverageId {
    open spec fn code(self) -> u8 {
        match self {
            EcamBeverageId::EspressoCoffee => 1,
            EcamBeverageId::RegularCoffee => 2,
            EcamBeverageId::LongCoffee => 3,
            EcamBeverageId::EspressoCoffee2X => 4,
            EcamBeverageId::DoppioPlus => 5,
            EcamBeverageId::Americano => 6,
            EcamBeverageId::Cappuccino => 7,
            EcamBeverageId::LatteMacchiato => 8,
            EcamBeverageId::CaffeLatte => 9,
            EcamBeverageId::FlatWhite => 10,
            EcamBeverageId::EspressoMacchiato => 11,
            EcamBeverageId::HotMilk => 12,
            EcamBeverageId::CappuccinoDoppioPlus => 13,
            EcamBeverageId::ColdMilk => 14,
            EcamBeverageId::CappuccinoReverse => 15,
            EcamBeverageId::HotWater => 16,
            EcamBeverageId::Steam => 17,
            EcamBeverageId::Ciocco => 18,
            EcamBeverageId::Ristretto => 19,
            EcamBeverageId::LongEspresso => 20,
            EcamBeverageId::CoffeeCream => 21,
            EcamBeverageId::Tea => 22,
            EcamBeverageId::CoffeePot => 23,
            EcamBeverageId::Cortado => 24,
            EcamBeverageId::LongBlack => 25,
            EcamBeverageId::TravelMug => 26,
            EcamBeverageId::BrewOverIce => 27,
        }
    }

    open spec fn of_code(code: u8) -> Option<Self> {
        match code {
            1 => Some(EcamBeverageId::EspressoCoffee),
            2 => Some(EcamBeverageId::RegularCoffee),
            3 => Some(EcamBeverageId::LongCoffee),
            4 => Some(EcamBeverageId::EspressoCoffee2X),
            5 => Some(EcamBeverageId::DoppioPlus),
            6 => Some(EcamBeverageId::Americano),
            7 => Some(EcamBeverageId::Cappuccino),
            8 => Some(EcamBeverageId::LatteMacchiato),
            9 => Some(EcamBeverageId::CaffeLatte),
            10 => Some(EcamBeverageId::FlatWhite),
            11 => Some(EcamBeverageId::EspressoMacchiato),
            12 => Some(EcamBeverageId::HotMilk),
            13 => Some(EcamBeverageId::CappuccinoDoppioPlus),
            14 => Some(EcamBeverageId::ColdMilk),
            15 => Some(EcamBeverageId::CappuccinoReverse),
            16 => Some(EcamBeverageId::HotWater),
            17 => Some(EcamBeverageId::Steam),
            18 => Some(EcamBeverageId::Ciocco),
            19 => Some(EcamBeverageId::Ristretto),
            20 => Some(EcamBeverageId::LongEspresso),
            21 => Some(EcamBeverageId::CoffeeCream),
            22 => Some(EcamBeverageId::Tea),
            23 => Some(EcamBeverageId::CoffeePot),
            24 => Some(EcamBeverageId::Cortado),
            25 => Some(EcamBeverageId::LongBlack),
            26 => Some(EcamBeverageId::TravelMug),
            27 => Some(EcamBeverageId::BrewOverIce),
            _ => None,
        }
    }

    proof fn lemma_of_code_sound(code: u8) {
    }

    proof fn lemma_of_code_complete(v: Self) {
    }

    fn to_code(&self) -> (code: u8) {
        match self {
            EcamBeverageId::EspressoCoffee => 1,
            EcamBeverageId::RegularCoffee => 2,
            EcamBeverageId::LongCoffee => 3,
            EcamBeverageId::EspressoCoffee2X => 4,
            EcamBeverageId::DoppioPlus => 5,
            EcamBeverageId::Americano => 6,
            EcamBeverageId::Cappuccino => 7,
            EcamBeverageId::LatteMacchiato => 8,
            EcamBeverageId::CaffeLatte => 9,
            EcamBeverageId::FlatWhite => 10,
            EcamBeverageId::EspressoMacchiato => 11,
            EcamBeverageId::HotMilk => 12,
            EcamBeverageId::CappuccinoDoppioPlus => 13,
            EcamBeverageId::ColdMilk => 14,
            EcamBeverageId::CappuccinoReverse => 15,
            EcamBeverageId::HotWater => 16,
            EcamBeverageId::Steam => 17,
            EcamBeverageId::Ciocco => 18,
            EcamBeverageId::Ristretto => 19,
            EcamBeverageId::LongEspresso => 20,
            EcamBeverageId::CoffeeCream => 21,
            EcamBeverageId::Tea => 22,
            EcamBeverageId::CoffeePot => 23,
            EcamBeverageId::Cortado => 24,
            EcamBeverageId::LongBlack => 25,
            EcamBeverageId::TravelMug => 26,
            EcamBeverageId::BrewOverIce => 27,
        }
    }

    fn from_code(code: u8) -> (v: Option<Self>) {
        match code {
            1 => Some(EcamBeverageId::EspressoCoffee),
            2 => Some(EcamBeverageId::RegularCoffee),
            3 => Some(EcamBeverageId::LongCoffee),
            4 => Some(EcamBeverageId::EspressoCoffee2X),
            5 => Some(EcamBeverageId::DoppioPlus),
            6 => Some(EcamBeverageId::Americano),
            7 => Some(EcamBeverageId::Cappuccino),
            8 => Some(EcamBeverageId::LatteMacchiato),
            9 => Some(EcamBeverageId::CaffeLatte),
            10 => Some(EcamBeverageId::FlatWhite),
            11 => Some(EcamBeverageId::EspressoMacchiato),
            12 => Some(EcamBeverageId::HotMilk),
            13 => Some(EcamBeverageId::CappuccinoDoppioPlus),
            14 => Some(EcamBeverageId::ColdMilk),
            15 => Some(EcamBeverageId::CappuccinoReverse),
            16 => Some(EcamBeverageId::HotWater),
            17 => Some(EcamBeverageId::Steam),
            18 => Some(EcamBeverageId::Ciocco),
            19 => Some(EcamBeverageId::Ristretto),
            20 => Some(EcamBeverageId::LongEspresso),
            21 => Some(EcamBeverageId::CoffeeCream),
            22 => Some(EcamBeverageId::Tea),
            23 => Some(EcamBeverageId::CoffeePot),
            24 => Some(EcamBeverageId::Cortado),
            25 => Some(EcamBeverageId::LongBlack),
            26 => Some(EcamBeverageId::TravelMug),
            27 => Some(EcamBeverageId::BrewOverIce),
            _ => None,
        }
    }
}

} // verus!
