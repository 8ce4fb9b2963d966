//! Test templates: how pre-checks, single-device tests and interlock tests are
//! described. JSON schemas and logic expressions are held as JSON text; times
//! as Unix nanoseconds.

use vstd::prelude::*;

verus! {

/// What a template describes.
#[derive(PartialEq, Eq, Structural, Clone, Copy, Debug)]
pub enum TemplateType {
    PreCheck,
    SingleDeviceTest,
    InterlockTest,
}

/// What a template is and where it comes from.
#[derive(Debug, Clone)]
pub struct TemplateMetadata {
    pub template_id: String,
    pub template_name: String,
    pub template_version: String,
    pub template_type: TemplateType,
    pub description: Option<String>,
    pub applicable_scope: Option<String>,
    pub created_by: Option<String>,
    pub created_at: i128,
    pub updated_at: i128,
}

/// The role of a point in a test.
#[derive(PartialEq, Eq, Structural, Clone, Copy, Debug)]
pub enum PointIoType {
    Command,
    Feedback,
    Parameter,
    Condition,
    Outcome,
}

/// A point that a test reads or writes.
#[derive(Debug, Clone)]
pub struct PointIoDefinition {
    pub point_name: String,
    pub description: Option<String>,
    pub io_type: PointIoType,
    pub data_type_hint: Option<String>,
}

/// One step of a single-device test.
#[derive(Debug, Clone)]
pub struct SingleDeviceTestStepDefinition {
    pub step_id: String,
    pub step_order: u32,
    pub step_name: String,
    pub description: String,
    pub command_action_enum: String,
    pub command_parameters_schema: Option<String>,
    pub command_target_points: Option<Vec<PointIoDefinition>>,
    pub feedback_prompt_for_site: String,
    pub feedback_points_to_read: Vec<PointIoDefinition>,
    pub feedback_input_schema: Option<String>,
    pub success_criteria_logic: String,
    pub timeout_seconds: Option<u32>,
}

/// A single-device test for one type of device.
#[derive(Debug, Clone)]
pub struct SingleDeviceTestTemplate {
    pub metadata: TemplateMetadata,
    pub device_type_id: String,
    pub steps: Vec<SingleDeviceTestStepDefinition>,
}

/// A point to set up before an interlock case.
#[derive(Debug, Clone)]
pub struct ConditionPointSetup {
    pub point_name: String,
    pub target_value_description: String,
    pub setup_method_hint: Option<String>,
}

/// Where a value to write comes from.
#[derive(Debug, Clone)]
pub enum ValueSource {
    /// A literal value, as JSON text.
    Literal(String),
    /// A named parameter.
    FromParameter(String),
    /// An output of an earlier step.
    FromPreviousStepOutput(String),
}

/// A point to write, with where its value comes from.
#[derive(Debug, Clone)]
pub struct PointReferenceWithValue {
    pub point_name: String,
    pub value_to_write_source: ValueSource,
}

/// What triggers an interlock case.
#[derive(Debug, Clone)]
pub struct TriggerActionDefinition {
    pub command_target_points: Option<Vec<PointReferenceWithValue>>,
}

/// A point to check after an interlock case.
#[derive(Debug, Clone)]
pub struct ExpectedPointOutcome {
    pub point_name: String,
    pub expected_value_description: String,
    pub comparison_operator: Option<String>,
}

/// One case of an interlock test.
#[derive(Debug, Clone)]
pub struct InterlockTestCaseDefinition {
    pub case_id: String,
    pub case_order: u32,
    pub case_name: String,
    pub description: String,
    pub preconditions_description: String,
    pub precondition_points_setup: Vec<ConditionPointSetup>,
    pub trigger_action_description: String,
    pub trigger_action_details: Option<TriggerActionDefinition>,
    pub expected_outcome_description: String,
    pub expected_outcome_points_check: Vec<ExpectedPointOutcome>,
    pub success_criteria_logic: String,
    pub timeout_seconds: Option<u32>,
}

/// An interlock test of a system or subsystem.
#[derive(Debug, Clone)]
pub struct InterlockTestTemplate {
    pub metadata: TemplateMetadata,
    pub system_or_subsystem_id: String,
    pub cases: Vec<InterlockTestCaseDefinition>,
}

} // verus!
