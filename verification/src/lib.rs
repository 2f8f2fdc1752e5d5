//! The logic of the APEX shell: what the desktop shows, and why.
//!
//! Every module holds plain state and total functions over it. Nothing here
//! touches a socket, a file, a clock or a pixel: the program around the library
//! reads those, hands the values in, and performs what comes back.

// Texts and values.
pub mod text;
pub mod json;
pub mod quoting;
pub mod repeats;
pub mod numbers;
pub mod floats;
pub mod decimals;
pub mod colour;
pub mod address;
pub mod pictures;

// The desktop.
pub mod apps;
pub mod desktop;
pub mod arrange;
pub mod geometry;
pub mod desktop_laws;
pub mod personas;
pub mod effects;
pub mod notices;
pub mod reflex;

// What the agent shows.
pub mod markdown;
pub mod markdown_laws;
pub mod reader;
pub mod demo;
pub mod mandala;
pub mod chat;
pub mod chat_laws;
pub mod board;
pub mod board_laws;
pub mod council;
pub mod inbox;

// The shell and its events.
pub mod ids;
pub mod events;
pub mod shell;
pub mod dispatch;
pub mod dispatch_laws;
pub mod window_laws;
pub mod arrange_laws;
pub mod stream_laws;
pub mod reader_laws;
pub mod reflex_laws;
pub mod actions;
pub mod boot;
pub mod mirror;

// The apps.
pub mod settings;
pub mod sessions;
pub mod identity;
pub mod roster;
pub mod journal;
pub mod files;
pub mod terminal;
pub mod calc;
pub mod sketch;
pub mod readings;
pub mod thermal;
pub mod studio;
pub mod cut;
pub mod cut_laws;
pub mod inbox_laws;
pub mod sessions_laws;
pub mod identity_laws;
pub mod terminal_laws;
pub mod mandala_laws;
pub mod studio_laws;
pub mod settings_laws;
pub mod files_laws;
pub mod calc_laws;
pub mod colour_laws;
pub mod notices_laws;
pub mod roster_laws;
pub mod world_laws;
pub mod score;
pub mod player;

// The world.
pub mod intents;
pub mod client;
pub mod stations;
pub mod world;
