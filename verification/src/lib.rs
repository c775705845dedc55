//! Verified core of the brain coordinator: the policies, registries,
//! schedulers, journals and decision rules that drive the companion and
//! the autonomous runtime. Everything that talks to the network, the file
//! system or a language model lives outside this crate and hands plain
//! values to the functions here.

pub mod text;
pub mod numbers;
pub mod desktop;
pub mod desktop_strategy;
pub mod desktop_verify;
pub mod desktop_operator;
pub mod desktop_tools;
pub mod attention;
pub mod conversation;
pub mod planner;
pub mod runtime_actions;
pub mod memory_evaluator;
pub mod executor;
pub mod strategy_engine;
pub mod runtime;
pub mod recovery;
pub mod event_driver;
pub mod delegations;
pub mod agents;
pub mod telegram;
pub mod ui;
pub mod memory_control;
pub mod capability_policy;
pub mod companion;
pub mod evolution;
pub mod world_model;
pub mod orchestrator;
pub mod audit_log;
pub mod autostart;
pub mod bounded;
pub mod capabilities;
pub mod clock;
pub mod errors;
pub mod event_replay;
pub mod goal_scheduler;
pub mod notifications;
pub mod observation_loop;
pub mod permissions;
pub mod persistence;
pub mod privacy;
pub mod settings;
pub mod sources;
pub mod communication_policy;
pub mod meminfo;
