pub mod json;
pub mod mcp;
pub mod tavily;
pub mod text;
pub mod types;
