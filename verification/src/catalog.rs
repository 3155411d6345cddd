//! The fixed answers of the service: the liveness probe and the catalog of
//! example contracts.

use vstd::prelude::*;
use vstd::string::StringExecFns;
use crate::model::{ContractTemplate, HealthResponse, HealthView, TemplateView};

verus! {

/// The status that the liveness probe reports.
pub const HEALTHY: &'static str = "healthy";

/// The name under which the service reports itself.
pub const SERVICE_NAME: &'static str = "NEAR Contract Compiler";

/// Source of the greeting example.
pub const HELLO_WORLD_CODE: &'static str = "use near_sdk::borsh::{BorshDeserialize, BorshSerialize};\nuse near_sdk::{env, near_bindgen, AccountId};\n\n#[near_bindgen]\n#[derive(Default, BorshDeserialize, BorshSerialize)]\npub struct Contract {\n    greeting: String,\n}\n\n#[near_bindgen]\nimpl Contract {\n    pub fn get_greeting(&self) -> String {\n        self.greeting.clone()\n    }\n\n    pub fn set_greeting(&mut self, message: String) {\n        env::log_str(&format!(\"Saving greeting: {}\", message));\n        self.greeting = message;\n    }\n\n    pub fn say_hello(&self, account: AccountId) -> String {\n        format!(\"{}, {}!\", self.greeting, account)\n    }\n}";

/// Source of the counter example.
pub const COUNTER_CODE: &'static str = "use near_sdk::borsh::{BorshDeserialize, BorshSerialize};\nuse near_sdk::{env, near_bindgen};\n\n#[near_bindgen]\n#[derive(Default, BorshDeserialize, BorshSerialize)]\npub struct Counter {\n    value: i32,\n}\n\n#[near_bindgen]\nimpl Counter {\n    pub fn get_num(&self) -> i32 {\n        self.value\n    }\n\n    pub fn increment(&mut self) {\n        self.value += 1;\n        env::log_str(&format!(\"Counter incremented to: {}\", self.value));\n    }\n\n    pub fn decrement(&mut self) {\n        self.value -= 1;\n        env::log_str(&format!(\"Counter decremented to: {}\", self.value));\n    }\n\n    pub fn reset(&mut self) {\n        self.value = 0;\n        env::log_str(&format!(\"Counter reset to: {}\", self.value));\n    }\n\n    pub fn set(&mut self, value: i32) {\n        self.value = value;\n        env::log_str(&format!(\"Counter set to: {}\", self.value));\n    }\n}";

/// The one answer of the liveness probe.
pub open spec fn healthy() -> HealthView {
    HealthView { status: HEALTHY@, service: SERVICE_NAME@ }
}

/// The catalog: the greeting example, then the counter.
pub open spec fn catalog() -> Seq<TemplateView> {
    seq![
        TemplateView {
            name: "Hello World"@,
            description: "Simple greeting contract"@,
            code: HELLO_WORLD_CODE@,
        },
        TemplateView {
            name: "Counter"@,
            description: "Simple counter with increment/decrement"@,
            code: COUNTER_CODE@,
        },
    ]
}

/// Answers the liveness probe.  The answer depends on nothing: no build,
/// past or running, can change it.
pub fn health_check() -> (health: HealthResponse)
    ensures
        health@ == healthy(),
{
    HealthResponse { status: String::from_str(HEALTHY), service: String::from_str(SERVICE_NAME) }
}

/// Lists the example contracts.
pub fn get_templates() -> (templates: Vec<ContractTemplate>)
    ensures
        templates@.len() == catalog().len(),
        forall|i: int| 0 <= i < templates@.len() ==> (#[trigger] templates@[i])@ == catalog()[i],
{
    let mut templates: Vec<ContractTemplate> = Vec::new();
    templates.push(
        ContractTemplate {
            name: String::from_str("Hello World"),
            description: String::from_str("Simple greeting contract"),
            code: String::from_str(HELLO_WORLD_CODE),
        },
    );
    templates.push(
        ContractTemplate {
            name: String::from_str("Counter"),
            description: String::from_str("Simple counter with increment/decrement"),
            code: String::from_str(COUNTER_CODE),
        },
    );
    templates
}

} // verus!
