use vstd::prelude::*;
use crate::json::{members_model, members_new, push_member};
use crate::tools::{direction_prop, direction_prop_spec, names0, names1, names2, prop, prop_spec, tool_value, SchemaModel, Tool, ToolKind, ToolModel};

verus! {

/// The tools in the order in which the server registers them.
pub open spec fn tool_kinds() -> Seq<ToolKind> {
    seq![ToolKind::Navigate, ToolKind::GetUrl, ToolKind::GetTitle, ToolKind::GetUiState, ToolKind::Screenshot, ToolKind::Evaluate, ToolKind::Click, ToolKind::Type, ToolKind::Scroll, ToolKind::GoBack, ToolKind::GoForward, ToolKind::Refresh, ToolKind::GetContent, ToolKind::WaitFor, ToolKind::WatchDom, ToolKind::WatchEvents, ToolKind::Notification, ToolKind::Show, ToolKind::Hide]
}

/// Name, description and argument schema of each tool.
pub open spec fn tool_spec(kind: ToolKind) -> ToolModel {
    match kind {
        ToolKind::Navigate => ToolModel {
            name: "browser_navigate"@,
            description: "Navigate to a specified URL"@,
            schema: SchemaModel {
                schema_type: "object"@,
                properties: seq![("url"@, prop_spec("string"@, "The URL to navigate to"@))],
                required: seq!["url"@],
            },
            kind,
        },
        ToolKind::GetUrl => ToolModel {
            name: "browser_get_url"@,
            description: "Get the current page URL"@,
            schema: SchemaModel {
                schema_type: "object"@,
                properties: seq![],
                required: seq![],
            },
            kind,
        },
        ToolKind::GetTitle => ToolModel {
            name: "browser_get_title"@,
            description: "Get the current page title"@,
            schema: SchemaModel {
                schema_type: "object"@,
                properties: seq![],
                required: seq![],
            },
            kind,
        },
        ToolKind::GetUiState => ToolModel {
            name: "browser_get_ui_state"@,
            description: "Get current UI state (URL, title, readyState, and text)"@,
            schema: SchemaModel {
                schema_type: "object"@,
                properties: seq![("selector"@, prop_spec("string"@, "CSS selector for specific element text (optional)"@)), ("max_len"@, prop_spec("number"@, "Maximum text length (default 1500)"@))],
                required: seq![],
            },
            kind,
        },
        ToolKind::Screenshot => ToolModel {
            name: "browser_screenshot"@,
            description: "Take a screenshot of the current page"@,
            schema: SchemaModel {
                schema_type: "object"@,
                properties: seq![("selector"@, prop_spec("string"@, "CSS selector for specific element (optional)"@))],
                required: seq![],
            },
            kind,
        },
        ToolKind::Evaluate => ToolModel {
            name: "browser_evaluate"@,
            description: "Execute JavaScript code in the page"@,
            schema: SchemaModel {
                schema_type: "object"@,
                properties: seq![("script"@, prop_spec("string"@, "JavaScript code to execute"@))],
                required: seq!["script"@],
            },
            kind,
        },
        ToolKind::Click => ToolModel {
            name: "browser_click"@,
            description: "Click an element on the page"@,
            schema: SchemaModel {
                schema_type: "object"@,
                properties: seq![("selector"@, prop_spec("string"@, "CSS selector for the element to click"@))],
                required: seq!["selector"@],
            },
            kind,
        },
        ToolKind::Type => ToolModel {
            name: "browser_type"@,
            description: "Type text into an input element"@,
            schema: SchemaModel {
                schema_type: "object"@,
                properties: seq![("selector"@, prop_spec("string"@, "CSS selector for the input element"@)), ("text"@, prop_spec("string"@, "Text to type"@))],
                required: seq!["selector"@, "text"@],
            },
            kind,
        },
        ToolKind::Scroll => ToolModel {
            name: "browser_scroll"@,
            description: "Scroll the page"@,
            schema: SchemaModel {
                schema_type: "object"@,
                properties: seq![("direction"@, direction_prop_spec()), ("amount"@, prop_spec("number"@, "Scroll amount in pixels (optional)"@))],
                required: seq!["direction"@],
            },
            kind,
        },
        ToolKind::GoBack => ToolModel {
            name: "browser_go_back"@,
            description: "Go back to the previous page"@,
            schema: SchemaModel {
                schema_type: "object"@,
                properties: seq![],
                required: seq![],
            },
            kind,
        },
        ToolKind::GoForward => ToolModel {
            name: "browser_go_forward"@,
            description: "Go forward to the next page"@,
            schema: SchemaModel {
                schema_type: "object"@,
                properties: seq![],
                required: seq![],
            },
            kind,
        },
        ToolKind::Refresh => ToolModel {
            name: "browser_refresh"@,
            description: "Refresh the current page"@,
            schema: SchemaModel {
                schema_type: "object"@,
                properties: seq![],
                required: seq![],
            },
            kind,
        },
        ToolKind::GetContent => ToolModel {
            name: "browser_get_content"@,
            description: "Get the page content (HTML)"@,
            schema: SchemaModel {
                schema_type: "object"@,
                properties: seq![("selector"@, prop_spec("string"@, "CSS selector for specific element (optional)"@))],
                required: seq![],
            },
            kind,
        },
        ToolKind::WaitFor => ToolModel {
            name: "browser_wait_for"@,
            description: "Wait for an element to appear on the page"@,
            schema: SchemaModel {
                schema_type: "object"@,
                properties: seq![("selector"@, prop_spec("string"@, "CSS selector for the element to wait for"@)), ("timeout"@, prop_spec("number"@, "Timeout in milliseconds (default 5000)"@))],
                required: seq!["selector"@],
            },
            kind,
        },
        ToolKind::WatchDom => ToolModel {
            name: "browser_watch_dom"@,
            description: "Watch DOM changes and return recent mutations"@,
            schema: SchemaModel {
                schema_type: "object"@,
                properties: seq![("since"@, prop_spec("number"@, "Last seen change id (default 0)"@)), ("max"@, prop_spec("number"@, "Max number of changes to return (default 100)"@))],
                required: seq![],
            },
            kind,
        },
        ToolKind::WatchEvents => ToolModel {
            name: "browser_watch_events"@,
            description: "Watch user interactions (click/input/submit) without capturing sensitive values"@,
            schema: SchemaModel {
                schema_type: "object"@,
                properties: seq![("since"@, prop_spec("number"@, "Last seen event id (default 0)"@)), ("max"@, prop_spec("number"@, "Max number of events to return (default 100)"@))],
                required: seq![],
            },
            kind,
        },
        ToolKind::Notification => ToolModel {
            name: "browser_notification"@,
            description: "Send a desktop notification"@,
            schema: SchemaModel {
                schema_type: "object"@,
                properties: seq![("title"@, prop_spec("string"@, "Notification title"@)), ("body"@, prop_spec("string"@, "Notification body"@))],
                required: seq!["title"@, "body"@],
            },
            kind,
        },
        ToolKind::Show => ToolModel {
            name: "browser_show"@,
            description: "Show the browser window"@,
            schema: SchemaModel {
                schema_type: "object"@,
                properties: seq![],
                required: seq![],
            },
            kind,
        },
        ToolKind::Hide => ToolModel {
            name: "browser_hide"@,
            description: "Hide the browser window"@,
            schema: SchemaModel {
                schema_type: "object"@,
                properties: seq![],
                required: seq![],
            },
            kind,
        },
    }
}

/// Builds the tool of `kind`.
pub fn make_tool(kind: ToolKind) -> (r: Tool)
    ensures
        r@ == tool_spec(kind),
{
    match kind {
        ToolKind::Navigate => {
            let mut props = members_new();
            push_member(&mut props, "url", prop("string", "The URL to navigate to"));
            assert(members_model(props@) =~= seq![("url"@, prop_spec("string"@, "The URL to navigate to"@))]);
            let required = names1("url");
            tool_value("browser_navigate", "Navigate to a specified URL", props, required, kind)
        },
        ToolKind::GetUrl => {
            let mut props = members_new();
            assert(members_model(props@) =~= seq![]);
            let required = names0();
            tool_value("browser_get_url", "Get the current page URL", props, required, kind)
        },
        ToolKind::GetTitle => {
            let mut props = members_new();
            assert(members_model(props@) =~= seq![]);
            let required = names0();
            tool_value("browser_get_title", "Get the current page title", props, required, kind)
        },
        ToolKind::GetUiState => {
            let mut props = members_new();
            push_member(&mut props, "selector", prop("string", "CSS selector for specific element text (optional)"));
            push_member(&mut props, "max_len", prop("number", "Maximum text length (default 1500)"));
            assert(members_model(props@) =~= seq![("selector"@, prop_spec("string"@, "CSS selector for specific element text (optional)"@)), ("max_len"@, prop_spec("number"@, "Maximum text length (default 1500)"@))]);
            let required = names0();
            tool_value("browser_get_ui_state", "Get current UI state (URL, title, readyState, and text)", props, required, kind)
        },
        ToolKind::Screenshot => {
            let mut props = members_new();
            push_member(&mut props, "selector", prop("string", "CSS selector for specific element (optional)"));
            assert(members_model(props@) =~= seq![("selector"@, prop_spec("string"@, "CSS selector for specific element (optional)"@))]);
            let required = names0();
            tool_value("browser_screenshot", "Take a screenshot of the current page", props, required, kind)
        },
        ToolKind::Evaluate => {
            let mut props = members_new();
            push_member(&mut props, "script", prop("string", "JavaScript code to execute"));
            assert(members_model(props@) =~= seq![("script"@, prop_spec("string"@, "JavaScript code to execute"@))]);
            let required = names1("script");
            tool_value("browser_evaluate", "Execute JavaScript code in the page", props, required, kind)
        },
        ToolKind::Click => {
            let mut props = members_new();
            push_member(&mut props, "selector", prop("string", "CSS selector for the element to click"));
            assert(members_model(props@) =~= seq![("selector"@, prop_spec("string"@, "CSS selector for the element to click"@))]);
            let required = names1("selector");
            tool_value("browser_click", "Click an element on the page", props, required, kind)
        },
        ToolKind::Type => {
            let mut props = members_new();
            push_member(&mut props, "selector", prop("string", "CSS selector for the input element"));
            push_member(&mut props, "text", prop("string", "Text to type"));
            assert(members_model(props@) =~= seq![("selector"@, prop_spec("string"@, "CSS selector for the input element"@)), ("text"@, prop_spec("string"@, "Text to type"@))]);
            let required = names2("selector", "text");
            tool_value("browser_type", "Type text into an input element", props, required, kind)
        },
        ToolKind::Scroll => {
            let mut props = members_new();
            push_member(&mut props, "direction", direction_prop());
            push_member(&mut props, "amount", prop("number", "Scroll amount in pixels (optional)"));
            assert(members_model(props@) =~= seq![("direction"@, direction_prop_spec()), ("amount"@, prop_spec("number"@, "Scroll amount in pixels (optional)"@))]);
            let required = names1("direction");
            tool_value("browser_scroll", "Scroll the page", props, required, kind)
        },
        ToolKind::GoBack => {
            let mut props = members_new();
            assert(members_model(props@) =~= seq![]);
            let required = names0();
            tool_value("browser_go_back", "Go back to the previous page", props, required, kind)
        },
        ToolKind::GoForward => {
            let mut props = members_new();
            assert(members_model(props@) =~= seq![]);
            let required = names0();
            tool_value("browser_go_forward", "Go forward to the next page", props, required, kind)
        },
        ToolKind::Refresh => {
            let mut props = members_new();
            assert(members_model(props@) =~= seq![]);
            let required = names0();
            tool_value("browser_refresh", "Refresh the current page", props, required, kind)
        },
        ToolKind::GetContent => {
            let mut props = members_new();
            push_member(&mut props, "selector", prop("string", "CSS selector for specific element (optional)"));
            assert(members_model(props@) =~= seq![("selector"@, prop_spec("string"@, "CSS selector for specific element (optional)"@))]);
            let required = names0();
            tool_value("browser_get_content", "Get the page content (HTML)", props, required, kind)
        },
        ToolKind::WaitFor => {
            let mut props = members_new();
            push_member(&mut props, "selector", prop("string", "CSS selector for the element to wait for"));
            push_member(&mut props, "timeout", prop("number", "Timeout in milliseconds (default 5000)"));
            assert(members_model(props@) =~= seq![("selector"@, prop_spec("string"@, "CSS selector for the element to wait for"@)), ("timeout"@, prop_spec("number"@, "Timeout in milliseconds (default 5000)"@))]);
            let required = names1("selector");
            tool_value("browser_wait_for", "Wait for an element to appear on the page", props, required, kind)
        },
        ToolKind::WatchDom => {
            let mut props = members_new();
            push_member(&mut props, "since", prop("number", "Last seen change id (default 0)"));
            push_member(&mut props, "max", prop("number", "Max number of changes to return (default 100)"));
            assert(members_model(props@) =~= seq![("since"@, prop_spec("number"@, "Last seen change id (default 0)"@)), ("max"@, prop_spec("number"@, "Max number of changes to return (default 100)"@))]);
            let required = names0();
            tool_value("browser_watch_dom", "Watch DOM changes and return recent mutations", props, required, kind)
        },
        ToolKind::WatchEvents => {
            let mut props = members_new();
            push_member(&mut props, "since", prop("number", "Last seen event id (default 0)"));
            push_member(&mut props, "max", prop("number", "Max number of events to return (default 100)"));
            assert(members_model(props@) =~= seq![("since"@, prop_spec("number"@, "Last seen event id (default 0)"@)), ("max"@, prop_spec("number"@, "Max number of events to return (default 100)"@))]);
            let required = names0();
            tool_value("browser_watch_events", "Watch user interactions (click/input/submit) without capturing sensitive values", props, required, kind)
        },
        ToolKind::Notification => {
            let mut props = members_new();
            push_member(&mut props, "title", prop("string", "Notification title"));
            push_member(&mut props, "body", prop("string", "Notification body"));
            assert(members_model(props@) =~= seq![("title"@, prop_spec("string"@, "Notification title"@)), ("body"@, prop_spec("string"@, "Notification body"@))]);
            let required = names2("title", "body");
            tool_value("browser_notification", "Send a desktop notification", props, required, kind)
        },
        ToolKind::Show => {
            let mut props = members_new();
            assert(members_model(props@) =~= seq![]);
            let required = names0();
            tool_value("browser_show", "Show the browser window", props, required, kind)
        },
        ToolKind::Hide => {
            let mut props = members_new();
            assert(members_model(props@) =~= seq![]);
            let required = names0();
            tool_value("browser_hide", "Hide the browser window", props, required, kind)
        },
    }
}

} // verus!
