//! The events that the actors of the simulation record.
//!
//! An event says who told whom what, when, and how much it matters. This
//! module holds the events themselves; handing them to a logger is left
//! to the code that runs the simulation.

use std::collections::BTreeMap;
use vstd::prelude::*;

verus! {

/// Who sends or receives an event.
#[derive(Debug, Clone)]
pub enum ActorType {
    Planet,
    Explorer,
    Orchestrator,
    User,
    Broadcast,
    SelfActor,
}

/// How much an event matters.
#[derive(Debug, Clone)]
pub enum Channel {
    /// Something that ends the simulation.
    Error,
    /// Something unexpected that the simulation survives.
    Warning,
    /// The events that count: planets and explorers are made, started,
    /// stopped, moved or destroyed.
    Info,
    /// Every other event.
    Debug,
    /// Every message.
    Trace,
}

/// What an event is about.
#[derive(Debug, Clone)]
pub enum EventType {
    MessagePlanetToOrchestrator,
    MessagePlanetToExplorer,
    MessageOrchestratorToExplorer,
    MessageOrchestratorToPlanet,
    MessageExplorerToPlanet,
    MessageExplorerToOrchestrator,
    InternalPlanetAction,
    InternalExplorerAction,
    InternalOrchestratorAction,
    UserToPlanet,
    UserToExplorer,
    UserToOrchestrator,
}

/// One event.
#[derive(Debug, Clone)]
pub struct LogEvent {
    /// When the event happened, in seconds since the Unix epoch.
    pub timestamp_unix: u64,
    /// The kind of actor that sent it.
    pub sender_type: ActorType,
    /// The id of the actor that sent it.
    pub sender_id: u32,
    /// The kind of actor that received it.
    pub receiver_type: ActorType,
    /// The id of the actor that received it.
    pub receiver_id: u32,
    /// What the event is about.
    pub event_type: EventType,
    /// How much the event matters.
    pub channel: Channel,
    /// Further details, by name.
    pub payload: BTreeMap<String, String>,
}

impl LogEvent {
    /// Creates the event that happened at `timestamp_unix`.
    pub fn new(
        timestamp_unix: u64,
        sender_type: ActorType,
        sender_id: u32,
        receiver_type: ActorType,
        receiver_id: u32,
        event_type: EventType,
        channel: Channel,
        payload: BTreeMap<String, String>,
    ) -> (event: LogEvent)
        ensures
            event == (LogEvent {
                timestamp_unix,
                sender_type,
                sender_id,
                receiver_type,
                receiver_id,
                event_type,
                channel,
                payload,
            }),
    {
        LogEvent {
            timestamp_unix,
            sender_type,
            sender_id,
            receiver_type,
            receiver_id,
            event_type,
            channel,
            payload,
        }
    }
}

} // verus!
