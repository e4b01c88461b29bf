//! The value types of the C ABI: status codes, agent kinds and the semantic
//! sensory and motor units, with the contract strings the units stand for.

use vstd::prelude::*;

verus! {

/// Status code returned by the configuration and client operations.
#[derive(Clone, Copy, Debug, PartialEq, Eq, Structural)]
pub enum FeagiStatus {
    /// Success.
    Success,
    /// A required argument was absent.
    NullPointer,
    /// An argument was invalid (empty text, out-of-range value).
    InvalidArgument,
    /// A text argument was not UTF-8.
    InvalidUtf8,
    /// JSON parsing or serialization failed.
    JsonError,
    /// The agent SDK reported an error.
    SdkError,
    /// Allocation failed.
    AllocationFailed,
}

/// Agent kind as callers of the ABI name it.
#[derive(Clone, Copy, Debug, PartialEq, Eq, Structural)]
pub enum FeagiAgentType {
    Sensory,
    Motor,
    Both,
    Visualization,
    Infrastructure,
}

/// Agent kind as the configuration records it.
#[derive(Clone, Copy, Debug, PartialEq, Eq, Structural)]
pub enum AgentType {
    Sensory,
    Motor,
    Both,
    Visualization,
    Infrastructure,
}

/// The agent kind that each ABI agent kind stands for.
pub open spec fn agent_type_of(value: FeagiAgentType) -> AgentType {
    match value {
        FeagiAgentType::Sensory => AgentType::Sensory,
        FeagiAgentType::Motor => AgentType::Motor,
        FeagiAgentType::Both => AgentType::Both,
        FeagiAgentType::Visualization => AgentType::Visualization,
        FeagiAgentType::Infrastructure => AgentType::Infrastructure,
    }
}

impl From<FeagiAgentType> for AgentType {
    fn from(value: FeagiAgentType) -> (r: Self) {
        match value {
            FeagiAgentType::Sensory => AgentType::Sensory,
            FeagiAgentType::Motor => AgentType::Motor,
            FeagiAgentType::Both => AgentType::Both,
            FeagiAgentType::Visualization => AgentType::Visualization,
            FeagiAgentType::Infrastructure => AgentType::Infrastructure,
        }
    }
}

impl vstd::std_specs::convert::FromSpecImpl<FeagiAgentType> for AgentType {
    open spec fn obeys_from_spec() -> bool {
        true
    }

    open spec fn from_spec(v: FeagiAgentType) -> Self {
        agent_type_of(v)
    }
}

/// Sensory unit of the semantic unit contract.
#[derive(Clone, Copy, Debug, PartialEq, Eq, Structural)]
pub enum FeagiSensoryUnit {
    Infrared,
    Proximity,
    Shock,
    Battery,
    Servo,
    AnalogGpio,
    DigitalGpio,
    MiscData,
    TextEnglishInput,
    CountInput,
    Vision,
    SegmentedVision,
    Accelerometer,
    Gyroscope,
}

/// The contract name of each sensory unit.
pub open spec fn sensory_unit_name(u: FeagiSensoryUnit) -> Seq<char> {
    match u {
        FeagiSensoryUnit::Infrared => "infrared"@,
        FeagiSensoryUnit::Proximity => "proximity"@,
        FeagiSensoryUnit::Shock => "shock"@,
        FeagiSensoryUnit::Battery => "battery"@,
        FeagiSensoryUnit::Servo => "servo"@,
        FeagiSensoryUnit::AnalogGpio => "analog_gpio"@,
        FeagiSensoryUnit::DigitalGpio => "digital_gpio"@,
        FeagiSensoryUnit::MiscData => "misc_data"@,
        FeagiSensoryUnit::TextEnglishInput => "text_english_input"@,
        FeagiSensoryUnit::CountInput => "count_input"@,
        FeagiSensoryUnit::Vision => "vision"@,
        FeagiSensoryUnit::SegmentedVision => "segmented_vision"@,
        FeagiSensoryUnit::Accelerometer => "accelerometer"@,
        FeagiSensoryUnit::Gyroscope => "gyroscope"@,
    }
}

impl FeagiSensoryUnit {
    /// The contract name of this unit.
    pub fn as_contract_str(self) -> (s: &'static str)
        ensures
            s@ == sensory_unit_name(self),
    {
        match self {
            FeagiSensoryUnit::Infrared => "infrared",
            FeagiSensoryUnit::Proximity => "proximity",
            FeagiSensoryUnit::Shock => "shock",
            FeagiSensoryUnit::Battery => "battery",
            FeagiSensoryUnit::Servo => "servo",
            FeagiSensoryUnit::AnalogGpio => "analog_gpio",
            FeagiSensoryUnit::DigitalGpio => "digital_gpio",
            FeagiSensoryUnit::MiscData => "misc_data",
            FeagiSensoryUnit::TextEnglishInput => "text_english_input",
            FeagiSensoryUnit::CountInput => "count_input",
            FeagiSensoryUnit::Vision => "vision",
            FeagiSensoryUnit::SegmentedVision => "segmented_vision",
            FeagiSensoryUnit::Accelerometer => "accelerometer",
            FeagiSensoryUnit::Gyroscope => "gyroscope",
        }
    }
}

/// Motor unit of the semantic unit contract.
#[derive(Clone, Copy, Debug, PartialEq, Eq, Structural)]
pub enum FeagiMotorUnit {
    RotaryMotor,
    PositionalServo,
    Gaze,
    MiscData,
    TextEnglishOutput,
    CountOutput,
    ObjectSegmentation,
    SimpleVisionOutput,
}

/// The contract name of each motor unit.
pub open spec fn motor_unit_name(u: FeagiMotorUnit) -> Seq<char> {
    match u {
        FeagiMotorUnit::RotaryMotor => "rotary_motor"@,
        FeagiMotorUnit::PositionalServo => "positional_servo"@,
        FeagiMotorUnit::Gaze => "gaze"@,
        FeagiMotorUnit::MiscData => "misc_data"@,
        FeagiMotorUnit::TextEnglishOutput => "text_english_output"@,
        FeagiMotorUnit::CountOutput => "count_output"@,
        FeagiMotorUnit::ObjectSegmentation => "object_segmentation"@,
        FeagiMotorUnit::SimpleVisionOutput => "simple_vision_output"@,
    }
}

impl FeagiMotorUnit {
    /// The contract name of this unit.
    pub fn as_contract_str(self) -> (s: &'static str)
        ensures
            s@ == motor_unit_name(self),
    {
        match self {
            FeagiMotorUnit::RotaryMotor => "rotary_motor",
            FeagiMotorUnit::PositionalServo => "positional_servo",
            FeagiMotorUnit::Gaze => "gaze",
            FeagiMotorUnit::MiscData => "misc_data",
            FeagiMotorUnit::TextEnglishOutput => "text_english_output",
            FeagiMotorUnit::CountOutput => "count_output",
            FeagiMotorUnit::ObjectSegmentation => "object_segmentation",
            FeagiMotorUnit::SimpleVisionOutput => "simple_vision_output",
        }
    }
}

/// Distinct sensory units have distinct contract names, so a name identifies
/// its unit.
pub proof fn lemma_sensory_unit_names_distinct(a: FeagiSensoryUnit, b: FeagiSensoryUnit)
    requires
        a != b,
    ensures
        sensory_unit_name(a) != sensory_unit_name(b),
{
    reveal_strlit("infrared");
    reveal_strlit("proximity");
    reveal_strlit("shock");
    reveal_strlit("battery");
    reveal_strlit("servo");
    reveal_strlit("analog_gpio");
    reveal_strlit("digital_gpio");
    reveal_strlit("misc_data");
    reveal_strlit("text_english_input");
    reveal_strlit("count_input");
    reveal_strlit("vision");
    reveal_strlit("segmented_vision");
    reveal_strlit("accelerometer");
    reveal_strlit("gyroscope");
    let sa = sensory_unit_name(a);
    let sb = sensory_unit_name(b);
    if sa == sb {
        assert(sa.len() == sb.len());
        assert(sa[0] == sb[0]);
        assert(sa[1] == sb[1]);
        assert(sa[2] == sb[2]);
    }
}

/// Distinct motor units have distinct contract names, so a name identifies
/// its unit.
pub proof fn lemma_motor_unit_names_distinct(a: FeagiMotorUnit, b: FeagiMotorUnit)
    requires
        a != b,
    ensures
        motor_unit_name(a) != motor_unit_name(b),
{
    reveal_strlit("rotary_motor");
    reveal_strlit("positional_servo");
    reveal_strlit("gaze");
    reveal_strlit("misc_data");
    reveal_strlit("text_english_output");
    reveal_strlit("count_output");
    reveal_strlit("object_segmentation");
    reveal_strlit("simple_vision_output");
    let sa = motor_unit_name(a);
    let sb = motor_unit_name(b);
    if sa == sb {
        assert(sa.len() == sb.len());
        assert(sa[0] == sb[0]);
        assert(sa[1] == sb[1]);
    }
}

/// Each sensory unit goes by its own contract name, and each contract name
/// stands for exactly that unit.
pub proof fn lemma_sensory_unit_name_table(u: FeagiSensoryUnit)
    ensures
        (sensory_unit_name(u) == "infrared"@) == (u == FeagiSensoryUnit::Infrared),
        (sensory_unit_name(u) == "proximity"@) == (u == FeagiSensoryUnit::Proximity),
        (sensory_unit_name(u) == "shock"@) == (u == FeagiSensoryUnit::Shock),
        (sensory_unit_name(u) == "battery"@) == (u == FeagiSensoryUnit::Battery),
        (sensory_unit_name(u) == "servo"@) == (u == FeagiSensoryUnit::Servo),
        (sensory_unit_name(u) == "analog_gpio"@) == (u == FeagiSensoryUnit::AnalogGpio),
        (sensory_unit_name(u) == "digital_gpio"@) == (u == FeagiSensoryUnit::DigitalGpio),
        (sensory_unit_name(u) == "misc_data"@) == (u == FeagiSensoryUnit::MiscData),
        (sensory_unit_name(u) == "text_english_input"@) == (u == FeagiSensoryUnit::TextEnglishInput),
        (sensory_unit_name(u) == "count_input"@) == (u == FeagiSensoryUnit::CountInput),
        (sensory_unit_name(u) == "vision"@) == (u == FeagiSensoryUnit::Vision),
        (sensory_unit_name(u) == "segmented_vision"@) == (u == FeagiSensoryUnit::SegmentedVision),
        (sensory_unit_name(u) == "accelerometer"@) == (u == FeagiSensoryUnit::Accelerometer),
        (sensory_unit_name(u) == "gyroscope"@) == (u == FeagiSensoryUnit::Gyroscope),
{
    reveal_strlit("infrared");
    reveal_strlit("proximity");
    reveal_strlit("shock");
    reveal_strlit("battery");
    reveal_strlit("servo");
    reveal_strlit("analog_gpio");
    reveal_strlit("digital_gpio");
    reveal_strlit("misc_data");
    reveal_strlit("text_english_input");
    reveal_strlit("count_input");
    reveal_strlit("vision");
    reveal_strlit("segmented_vision");
    reveal_strlit("accelerometer");
    reveal_strlit("gyroscope");
    if u != FeagiSensoryUnit::Infrared {
        lemma_sensory_unit_names_distinct(u, FeagiSensoryUnit::Infrared);
    }
    if u != FeagiSensoryUnit::Proximity {
        lemma_sensory_unit_names_distinct(u, FeagiSensoryUnit::Proximity);
    }
    if u != FeagiSensoryUnit::Shock {
        lemma_sensory_unit_names_distinct(u, FeagiSensoryUnit::Shock);
    }
    if u != FeagiSensoryUnit::Battery {
        lemma_sensory_unit_names_distinct(u, FeagiSensoryUnit::Battery);
    }
    if u != FeagiSensoryUnit::Servo {
        lemma_sensory_unit_names_distinct(u, FeagiSensoryUnit::Servo);
    }
    if u != FeagiSensoryUnit::AnalogGpio {
        lemma_sensory_unit_names_distinct(u, FeagiSensoryUnit::AnalogGpio);
    }
    if u != FeagiSensoryUnit::DigitalGpio {
        lemma_sensory_unit_names_distinct(u, FeagiSensoryUnit::DigitalGpio);
    }
    if u != FeagiSensoryUnit::MiscData {
        lemma_sensory_unit_names_distinct(u, FeagiSensoryUnit::MiscData);
    }
    if u != FeagiSensoryUnit::TextEnglishInput {
        lemma_sensory_unit_names_distinct(u, FeagiSensoryUnit::TextEnglishInput);
    }
    if u != FeagiSensoryUnit::CountInput {
        lemma_sensory_unit_names_distinct(u, FeagiSensoryUnit::CountInput);
    }
    if u != FeagiSensoryUnit::Vision {
        lemma_sensory_unit_names_distinct(u, FeagiSensoryUnit::Vision);
    }
    if u != FeagiSensoryUnit::SegmentedVision {
        lemma_sensory_unit_names_distinct(u, FeagiSensoryUnit::SegmentedVision);
    }
    if u != FeagiSensoryUnit::Accelerometer {
        lemma_sensory_unit_names_distinct(u, FeagiSensoryUnit::Accelerometer);
    }
    if u != FeagiSensoryUnit::Gyroscope {
        lemma_sensory_unit_names_distinct(u, FeagiSensoryUnit::Gyroscope);
    }
}

/// Each motor unit goes by its own contract name, and each contract name
/// stands for exactly that unit.
pub proof fn lemma_motor_unit_name_table(u: FeagiMotorUnit)
    ensures
        (motor_unit_name(u) == "rotary_motor"@) == (u == FeagiMotorUnit::RotaryMotor),
        (motor_unit_name(u) == "positional_servo"@) == (u == FeagiMotorUnit::PositionalServo),
        (motor_unit_name(u) == "gaze"@) == (u == FeagiMotorUnit::Gaze),
        (motor_unit_name(u) == "misc_data"@) == (u == FeagiMotorUnit::MiscData),
        (motor_unit_name(u) == "text_english_output"@) == (u == FeagiMotorUnit::TextEnglishOutput),
        (motor_unit_name(u) == "count_output"@) == (u == FeagiMotorUnit::CountOutput),
        (motor_unit_name(u) == "object_segmentation"@) == (u == FeagiMotorUnit::ObjectSegmentation),
        (motor_unit_name(u) == "simple_vision_output"@) == (u == FeagiMotorUnit::SimpleVisionOutput),
{
    reveal_strlit("rotary_motor");
    reveal_strlit("positional_servo");
    reveal_strlit("gaze");
    reveal_strlit("misc_data");
    reveal_strlit("text_english_output");
    reveal_strlit("count_output");
    reveal_strlit("object_segmentation");
    reveal_strlit("simple_vision_output");
    if u != FeagiMotorUnit::RotaryMotor {
        lemma_motor_unit_names_distinct(u, FeagiMotorUnit::RotaryMotor);
    }
    if u != FeagiMotorUnit::PositionalServo {
        lemma_motor_unit_names_distinct(u, FeagiMotorUnit::PositionalServo);
    }
    if u != FeagiMotorUnit::Gaze {
        lemma_motor_unit_names_distinct(u, FeagiMotorUnit::Gaze);
    }
    if u != FeagiMotorUnit::MiscData {
        lemma_motor_unit_names_distinct(u, FeagiMotorUnit::MiscData);
    }
    if u != FeagiMotorUnit::TextEnglishOutput {
        lemma_motor_unit_names_distinct(u, FeagiMotorUnit::TextEnglishOutput);
    }
    if u != FeagiMotorUnit::CountOutput {
        lemma_motor_unit_names_distinct(u, FeagiMotorUnit::CountOutput);
    }
    if u != FeagiMotorUnit::ObjectSegmentation {
        lemma_motor_unit_names_distinct(u, FeagiMotorUnit::ObjectSegmentation);
    }
    if u != FeagiMotorUnit::SimpleVisionOutput {
        lemma_motor_unit_names_distinct(u, FeagiMotorUnit::SimpleVisionOutput);
    }
}

} // verus!
