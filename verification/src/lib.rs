//! Core of a streaming audio player: the playback orchestration state
//! machine, a bounded prefetch queue, the fetch-worker retry policy, and a
//! terminal widget tree rendered to plain strings.
//!
//! Everything here is pure logic over plain values. The runtime shell
//! (audio device, network, terminal, task scheduling) lives outside and
//! drives these functions.

pub mod context;
pub mod control;
pub mod extras;
pub mod fetch;
pub mod layout;
pub mod manager;
pub mod progress;
pub mod queue;
pub mod text;
pub mod track;
pub mod widgets;
pub mod window;
