use std::collections::HashMap;
use vstd::prelude::*;

verus! {

/// Describes component trigger action.
#[derive(Clone, Debug, PartialEq, Eq)]
pub struct ComponentTriggerAction {
    /// Type of the action to trigger.
    pub action: String,
    /// Identifier of the component where the action should be executed.
    pub component: String,
}

/// A component of a project.
#[derive(Clone, Debug, PartialEq, Eq)]
pub struct Component {
    /// Identifier of the project component.
    pub id: String,
    /// Type of the project component.
    pub component_type: String,
    /// Values of project component properties.
    pub properties: HashMap<String, String>,
    /// Component trigger <-> corresponding actions map.
    pub triggers: HashMap<String, Vec<ComponentTriggerAction>>,
}

} // verus!
