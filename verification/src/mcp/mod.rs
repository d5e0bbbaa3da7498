pub mod call_laws;
pub mod calls;
pub mod laws;
pub mod message_laws;
pub mod messages;
pub mod tool_laws;
pub mod tools;

pub use calls::{
    call_tool, parse_string_array, parse_web_search_input, serialize_failure, web_map_result,
    ToolCall,
};
pub use messages::{
    error_response, finish_call, handle_line, handle_message, handle_request,
    negotiate_protocol_version, response_line, success_response, tool_response, ErrorReport,
    LineStep, MessageStep, RequestStep, LATEST_PROTOCOL_VERSION,
};
pub use tools::{search_input_schema, tools_list};
