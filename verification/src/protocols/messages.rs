//! The messages of the three channels of a planet, and of the channel
//! between the orchestrator and an explorer.
//!
//! Messages travel over channels of `crossbeam_channel`. The endpoints of
//! those channels are carried through this library as opaque values: a
//! planet stores them and hands them out, and only the code that runs the
//! planet sends or receives on them.

use crate::components::asteroid::Asteroid;
use crate::components::planet::DummyPlanetState;
use crate::components::resource::{
    BasicResource, BasicResourceType, ComplexResource, ComplexResourceRequest,
    ComplexResourceType, GenericResource,
};
use crate::components::rocket::Rocket;
use crate::components::sunray::Sunray;
use crossbeam_channel::{Receiver, Sender};
use vstd::prelude::*;

verus! {

/// `crossbeam_channel::Sender`, the sending end of a channel. Nothing is
/// claimed of it: the library stores and returns such values and never
/// looks inside one.
#[verifier::external_type_specification]
#[verifier::external_body]
#[verifier::reject_recursive_types(T)]
pub struct ExSender<T>(Sender<T>);

/// `crossbeam_channel::Receiver`, the receiving end of a channel. Nothing
/// is claimed of it: the library stores and returns such values and never
/// looks inside one.
#[verifier::external_type_specification]
#[verifier::external_body]
#[verifier::reject_recursive_types(T)]
pub struct ExReceiver<T>(Receiver<T>);

/// What the orchestrator tells a planet.
#[derive(Debug)]
pub enum OrchestratorToPlanet {
    /// A sunray reaches the planet.
    Sunray(Sunray),
    /// An asteroid threatens the planet.
    Asteroid(Asteroid),
    /// Starts the planet, or restarts it after a stop.
    StartPlanetAI,
    /// Pauses the planet.
    StopPlanetAI,
    /// Destroys the planet.
    KillPlanet,
    /// Asks for an overview of the state of the planet.
    InternalStateRequest,
    /// An explorer lands: `new_mpsc_sender` is the channel on which the
    /// planet answers this explorer from now on.
    IncomingExplorerRequest { explorer_id: u32, new_mpsc_sender: Sender<PlanetToExplorer> },
    /// An explorer leaves: the planet forgets the channel of this explorer.
    OutgoingExplorerRequest { explorer_id: u32 },
}

/// What a planet answers to the orchestrator.
#[derive(Debug)]
pub enum PlanetToOrchestrator {
    /// The sunray was received.
    SunrayAck { planet_id: u32 },
    /// The asteroid was received. The planet survives it exactly when it
    /// hands over a rocket.
    AsteroidAck { planet_id: u32, rocket: Option<Rocket> },
    /// The planet has started.
    StartPlanetAIResult { planet_id: u32 },
    /// The planet has stopped.
    StopPlanetAIResult { planet_id: u32 },
    /// The planet is destroyed.
    KillPlanetResult { planet_id: u32 },
    /// The overview of the state of the planet.
    InternalStateResponse { planet_id: u32, planet_state: DummyPlanetState },
    /// The explorer has landed.
    IncomingExplorerResponse { planet_id: u32, explorer_id: u32, res: Result<(), String> },
    /// The explorer has left.
    OutgoingExplorerResponse { planet_id: u32, explorer_id: u32, res: Result<(), String> },
    /// The planet is stopped and did not act on the message.
    Stopped { planet_id: u32 },
}

impl PlanetToOrchestrator {
    /// The planet that sent the message.
    pub open spec fn sender_id(&self) -> u32 {
        match self {
            PlanetToOrchestrator::SunrayAck { planet_id } => *planet_id,
            PlanetToOrchestrator::AsteroidAck { planet_id, .. } => *planet_id,
            PlanetToOrchestrator::StartPlanetAIResult { planet_id } => *planet_id,
            PlanetToOrchestrator::StopPlanetAIResult { planet_id } => *planet_id,
            PlanetToOrchestrator::KillPlanetResult { planet_id } => *planet_id,
            PlanetToOrchestrator::InternalStateResponse { planet_id, .. } => *planet_id,
            PlanetToOrchestrator::IncomingExplorerResponse { planet_id, .. } => *planet_id,
            PlanetToOrchestrator::OutgoingExplorerResponse { planet_id, .. } => *planet_id,
            PlanetToOrchestrator::Stopped { planet_id } => *planet_id,
        }
    }

    /// Returns the id of the planet that sent the message, whatever the
    /// variant.
    pub fn planet_id(&self) -> (id: u32)
        ensures
            id == self.sender_id(),
    {
        match self {
            PlanetToOrchestrator::SunrayAck { planet_id } => *planet_id,
            PlanetToOrchestrator::AsteroidAck { planet_id, .. } => *planet_id,
            PlanetToOrchestrator::StartPlanetAIResult { planet_id } => *planet_id,
            PlanetToOrchestrator::StopPlanetAIResult { planet_id } => *planet_id,
            PlanetToOrchestrator::KillPlanetResult { planet_id } => *planet_id,
            PlanetToOrchestrator::InternalStateResponse { planet_id, .. } => *planet_id,
            PlanetToOrchestrator::IncomingExplorerResponse { planet_id, .. } => *planet_id,
            PlanetToOrchestrator::OutgoingExplorerResponse { planet_id, .. } => *planet_id,
            PlanetToOrchestrator::Stopped { planet_id } => *planet_id,
        }
    }
}

/// What an explorer asks of the planet it visits. Every message names the
/// explorer that sent it.
#[derive(Debug)]
pub enum ExplorerToPlanet {
    /// Asks which basic resources the planet can make.
    SupportedResourceRequest { explorer_id: u32 },
    /// Asks which complex resources the planet can make.
    SupportedCombinationRequest { explorer_id: u32 },
    /// Asks the planet to make a basic resource.
    GenerateResourceRequest { explorer_id: u32, resource: BasicResourceType },
    /// Asks the planet to combine two resources.
    CombineResourceRequest { explorer_id: u32, msg: ComplexResourceRequest },
    /// Asks how many charged cells the planet has.
    AvailableEnergyCellRequest { explorer_id: u32 },
}

impl ExplorerToPlanet {
    /// The explorer that sent the message.
    pub open spec fn sender_id(&self) -> u32 {
        match self {
            ExplorerToPlanet::SupportedResourceRequest { explorer_id } => *explorer_id,
            ExplorerToPlanet::SupportedCombinationRequest { explorer_id } => *explorer_id,
            ExplorerToPlanet::GenerateResourceRequest { explorer_id, .. } => *explorer_id,
            ExplorerToPlanet::CombineResourceRequest { explorer_id, .. } => *explorer_id,
            ExplorerToPlanet::AvailableEnergyCellRequest { explorer_id } => *explorer_id,
        }
    }

    /// Returns the id of the explorer that sent the message, whatever the
    /// variant.
    pub fn explorer_id(&self) -> (id: u32)
        ensures
            id == self.sender_id(),
    {
        match self {
            ExplorerToPlanet::SupportedResourceRequest { explorer_id } => *explorer_id,
            ExplorerToPlanet::SupportedCombinationRequest { explorer_id } => *explorer_id,
            ExplorerToPlanet::GenerateResourceRequest { explorer_id, .. } => *explorer_id,
            ExplorerToPlanet::CombineResourceRequest { explorer_id, .. } => *explorer_id,
            ExplorerToPlanet::AvailableEnergyCellRequest { explorer_id } => *explorer_id,
        }
    }
}

/// What a planet answers to an explorer.
#[derive(Debug)]
pub enum PlanetToExplorer {
    /// The basic resources that the planet can make, each of them once.
    SupportedResourceResponse { resource_list: Vec<BasicResourceType> },
    /// The complex resources that the planet can make, each of them once.
    SupportedCombinationResponse { combination_list: Vec<ComplexResourceType> },
    /// The basic resource that was made, or `None` if it could not be.
    GenerateResourceResponse { resource: Option<BasicResource> },
    /// The complex resource that was made, or the error together with the
    /// two ingredients that the explorer had sent.
    CombineResourceResponse {
        complex_response: Result<ComplexResource, (String, GenericResource, GenericResource)>,
    },
    /// The number of charged cells of the planet.
    AvailableEnergyCellResponse { available_cells: u32 },
    /// The planet is stopped and did not act on the message.
    Stopped,
}

/// What the orchestrator tells an explorer.
#[derive(Debug)]
pub enum OrchestratorToExplorer {
    /// Starts the explorer.
    StartExplorerAI,
    /// Resets the explorer.
    ResetExplorerAI,
    /// Destroys the explorer.
    KillExplorerAI,
    /// Moves the explorer: the channel to the new planet, or `None` if the
    /// planet that the explorer asked for is not a neighbour.
    MoveToPlanet { sender_to_new_planet: Option<Sender<ExplorerToPlanet>> },
    /// Asks on which planet the explorer is.
    CurrentPlanetRequest,
    /// Makes the explorer ask its planet for the basic resources.
    SupportedResourceRequest,
    /// Makes the explorer ask its planet for the complex resources.
    SupportedCombinationRequest,
    /// Makes the explorer ask its planet for a basic resource.
    GenerateResourceRequest { to_generate: BasicResourceType },
    /// Makes the explorer ask its planet for a complex resource.
    CombineResourceRequest(ComplexResourceRequest),
    /// Asks what the explorer carries.
    BagContentRequest,
    /// The planets next to the one the explorer is on.
    NeighborsResponse { neighbors: Vec<u32> },
}

/// What an explorer tells the orchestrator. `T` is the type in which an
/// explorer reports what it carries.
#[derive(Debug)]
pub enum ExplorerToOrchestrator<T> {
    /// The explorer has started.
    StartExplorerAIResult { explorer_id: u32 },
    /// The explorer is destroyed.
    KillExplorerAIResult { explorer_id: u32 },
    /// The explorer was reset.
    ResetExplorerAIResult { explorer_id: u32 },
    /// The explorer has moved.
    MovedToPlanetResult { explorer_id: u32 },
    /// The planet on which the explorer is.
    CurrentPlanetResult { explorer_id: u32, planet_id: u32 },
    /// The basic resources that the planet of the explorer can make.
    SupportedResourceResult { explorer_id: u32, supported_resources: Vec<BasicResourceType> },
    /// The complex resources that the planet of the explorer can make.
    SupportedCombinationResult { explorer_id: u32, combination_list: Vec<ComplexResourceType> },
    /// Whether the basic resource asked for was made.
    GenerateResourceResponse { explorer_id: u32, generated: Result<(), ()> },
    /// Whether the complex resource asked for was made.
    CombineResourceResponse { explorer_id: u32, generated: Result<(), ()> },
    /// What the explorer carries.
    BagContentResponse { explorer_id: u32, bag_content: T },
    /// Asks for the planets next to the one the explorer is on.
    NeighborsRequest { explorer_id: u32, current_planet_id: u32 },
    /// Asks to travel to another planet.
    TravelToPlanetRequest { explorer_id: u32, current_planet_id: u32, dst_planet_id: u32 },
}

impl<T> ExplorerToOrchestrator<T> {
    /// The explorer that sent the message.
    pub open spec fn sender_id(&self) -> u32 {
        match self {
            ExplorerToOrchestrator::StartExplorerAIResult { explorer_id } => *explorer_id,
            ExplorerToOrchestrator::KillExplorerAIResult { explorer_id } => *explorer_id,
            ExplorerToOrchestrator::ResetExplorerAIResult { explorer_id } => *explorer_id,
            ExplorerToOrchestrator::MovedToPlanetResult { explorer_id } => *explorer_id,
            ExplorerToOrchestrator::CurrentPlanetResult { explorer_id, .. } => *explorer_id,
            ExplorerToOrchestrator::SupportedResourceResult { explorer_id, .. } => *explorer_id,
            ExplorerToOrchestrator::SupportedCombinationResult { explorer_id, .. } => *explorer_id,
            ExplorerToOrchestrator::GenerateResourceResponse { explorer_id, .. } => *explorer_id,
            ExplorerToOrchestrator::CombineResourceResponse { explorer_id, .. } => *explorer_id,
            ExplorerToOrchestrator::BagContentResponse { explorer_id, .. } => *explorer_id,
            ExplorerToOrchestrator::NeighborsRequest { explorer_id, .. } => *explorer_id,
            ExplorerToOrchestrator::TravelToPlanetRequest { explorer_id, .. } => *explorer_id,
        }
    }

    /// Returns the id of the explorer that sent the message, whatever the
    /// variant.
    pub fn explorer_id(&self) -> (id: u32)
        ensures
            id == self.sender_id(),
    {
        match self {
            ExplorerToOrchestrator::StartExplorerAIResult { explorer_id } => *explorer_id,
            ExplorerToOrchestrator::KillExplorerAIResult { explorer_id } => *explorer_id,
            ExplorerToOrchestrator::ResetExplorerAIResult { explorer_id } => *explorer_id,
            ExplorerToOrchestrator::MovedToPlanetResult { explorer_id } => *explorer_id,
            ExplorerToOrchestrator::CurrentPlanetResult { explorer_id, .. } => *explorer_id,
            ExplorerToOrchestrator::SupportedResourceResult { explorer_id, .. } => *explorer_id,
            ExplorerToOrchestrator::SupportedCombinationResult { explorer_id, .. } => *explorer_id,
            ExplorerToOrchestrator::GenerateResourceResponse { explorer_id, .. } => *explorer_id,
            ExplorerToOrchestrator::CombineResourceResponse { explorer_id, .. } => *explorer_id,
            ExplorerToOrchestrator::BagContentResponse { explorer_id, .. } => *explorer_id,
            ExplorerToOrchestrator::NeighborsRequest { explorer_id, .. } => *explorer_id,
            ExplorerToOrchestrator::TravelToPlanetRequest { explorer_id, .. } => *explorer_id,
        }
    }
}

} // verus!
