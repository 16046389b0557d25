//! The simulation core of a procedurally growing text adventure: a world
//! model that changes only through a fixed catalogue of tool operations,
//! a turn-based combat engine, and on-demand expansion of the location grid.
pub mod agent;
pub mod cli;
pub mod combat;
pub mod commands;
pub mod context;
pub mod game;
pub mod image;
pub mod input;
pub mod json;
pub mod keyed;
pub mod laws;
pub mod llm;
pub mod map;
pub mod model;
pub mod order;
pub mod parsing;
pub mod registry;
pub mod save;
pub mod suggest;
pub mod text;
pub mod tools;
pub mod travel;
pub mod tui;
pub mod turn;
