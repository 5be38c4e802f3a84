//! Core decision logic of a low-latency futures trading engine: order and
//! status vocabulary, configuration rules, the sample strategy's signal
//! rule, the paper exchange book, Binance request construction and signing,
//! the split active/history storage plan, and the engine's lane decisions.
pub mod text;
pub mod ids;

pub mod domain;
pub mod engine;
pub mod storage;
pub mod strategy;
pub mod binance;
pub mod config;
pub mod exchange;
pub mod ieee;
