pub mod assoc;
pub mod cli;
pub mod cli_overrides;
pub mod config_laws;
pub mod config_load;
pub mod config_ops;
pub mod config_query;
pub mod config_save;
pub mod config_types;
pub mod date;
pub mod export;
pub mod flows;
pub mod inbond;
pub mod layout;
pub mod listcheck;
pub mod menu;
pub mod mock;
pub mod params;
pub mod prompts;
pub mod report;
pub mod runner;
pub mod settings_laws;
pub mod sources;
pub mod text;
pub mod toml_doc;
pub mod tui;
pub mod vl06o_flow;
pub mod vt11_flow;
