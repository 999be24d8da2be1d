//! Program upload engine for a robot controller: packet handshakes, radio
//! channel switching, differential (patch-based) uploads and their planning,
//! together with the upload settings of a package and the small state
//! machines of the surrounding command-line tool (field control screen,
//! migration feature lists, pending file changes, self-update mode).
pub mod patch;
pub mod handshake;
pub mod transfer;
pub mod radio;
pub mod names;
pub mod planner;
pub mod upload;
pub mod widgets;
pub mod settings;
pub mod options;
pub mod tools;
pub mod workspace;
pub mod field_control;
pub mod migrate;
