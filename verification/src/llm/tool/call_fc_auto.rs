//! Function calling with the choice of the tool left to the model.

use vstd::prelude::*;

verus! {

/// What a tool says of itself.
#[derive(Debug)]
pub struct ToolDescription {
    pub name: String,
    pub description: String,
    /// The JSON schema of the parameters, as text.
    pub parameters_schema: String,
}

/// The tools at hand.
pub type ToolBox = Vec<ToolDescription>;

/// A function that a request declares to the model.
#[derive(Debug)]
pub struct FunctionTool {
    pub name: String,
    pub description: Option<String>,
    /// The JSON schema of the parameters, as text.
    pub parameters: String,
}

/// How the model is to choose among the declared tools.
#[derive(Clone, Copy, Debug, PartialEq, Eq, Structural)]
pub enum ToolChoice {
    /// The model calls no tool.
    Never,
    /// The model may call a tool or answer.
    Auto,
    /// The model must call a tool.
    Required,
}

/// The part of a request that is about tools.
#[derive(Debug)]
pub struct ToolSettings {
    pub tools: Option<Vec<FunctionTool>>,
    pub tool_choice: Option<ToolChoice>,
}

/// The content of a [`FunctionTool`].
pub struct FunctionView {
    pub name: Seq<char>,
    pub description: Option<Seq<char>>,
    pub parameters: Seq<char>,
}

impl View for FunctionTool {
    type V = FunctionView;

    open spec fn view(&self) -> FunctionView {
        FunctionView {
            name: self.name@,
            description: match self.description {
                Some(text) => Some(text@),
                None => None,
            },
            parameters: self.parameters@,
        }
    }
}

/// The function by which `tool` is declared: under its name, with its description and the
/// schema of its parameters.
pub open spec fn declared(tool: ToolDescription) -> FunctionView {
    FunctionView {
        name: tool.name@,
        description: Some(tool.description@),
        parameters: tool.parameters_schema@,
    }
}

/// The content of a [`ToolSettings`].
pub struct SettingsView {
    pub tools: Option<Seq<FunctionView>>,
    pub tool_choice: Option<ToolChoice>,
}

impl View for ToolSettings {
    type V = SettingsView;

    open spec fn view(&self) -> SettingsView {
        SettingsView {
            tools: match self.tools {
                Some(tools) => Some(Seq::new(tools@.len(), |i: int| tools@[i]@)),
                None => None,
            },
            tool_choice: self.tool_choice,
        }
    }
}

/// The settings that declare every tool of `tools` as a function, in their order, and leave
/// the choice to the model.
pub open spec fn function_calling_auto(tools: Seq<ToolDescription>) -> SettingsView {
    SettingsView {
        tools: Some(Seq::new(tools.len(), |i: int| declared(tools[i]))),
        tool_choice: Some(ToolChoice::Auto),
    }
}

/// A request under construction that can be told to offer tools to the model.
pub trait FunctionCallingAutoBuilder: Sized {
    /// What the request says about tools.
    spec fn tool_settings(&self) -> SettingsView;

    /// Declares every tool of `tools` as a function and leaves the choice to the model. The
    /// request is handed back, so that more can be said of it.
    fn with_function_calling_auto(&mut self, tools: &ToolBox) -> (builder: &mut Self)
        ensures
            builder.tool_settings() == function_calling_auto(tools@),
            *final(self) == *final(builder),
    ;
}

impl ToolSettings {
    /// Settings that say nothing about tools.
    pub fn new() -> (settings: Self)
        ensures
            settings@ == (SettingsView { tools: None, tool_choice: None }),
    {
        ToolSettings { tools: None, tool_choice: None }
    }
}

impl FunctionCallingAutoBuilder for ToolSettings {
    open spec fn tool_settings(&self) -> SettingsView {
        self@
    }

    fn with_function_calling_auto(&mut self, tools: &ToolBox) -> (builder: &mut Self) {
        let mut functions: Vec<FunctionTool> = Vec::new();
        let mut i: usize = 0;
        while i < tools.len()
            invariant
                i <= tools@.len(),
                functions@.len() == i,
                forall|j: int| 0 <= j < i ==> #[trigger] functions@[j]@ == declared(tools@[j]),
            decreases tools@.len() - i,
        {
            functions.push(
                FunctionTool {
                    name: tools[i].name.clone(),
                    description: Some(tools[i].description.clone()),
                    parameters: tools[i].parameters_schema.clone(),
                },
            );
            i += 1;
        }
        self.tools = Some(functions);
        self.tool_choice = Some(ToolChoice::Auto);
        assert(self@.tools->0 =~= function_calling_auto(tools@).tools->0);
        self
    }
}

} // verus!
