use common_game::components::resource::BasicResourceType;
use common_game::protocols::messages::{
    ExplorerToOrchestrator, ExplorerToPlanet, PlanetToOrchestrator,
};

#[test]
fn planet_id_is_read_from_every_variant() {
    let messages = vec![
        PlanetToOrchestrator::SunrayAck { planet_id: 1 },
        PlanetToOrchestrator::AsteroidAck {
            planet_id: 2,
            rocket: None,
        },
        PlanetToOrchestrator::StartPlanetAIResult { planet_id: 3 },
        PlanetToOrchestrator::StopPlanetAIResult { planet_id: 4 },
        PlanetToOrchestrator::KillPlanetResult { planet_id: 5 },
        PlanetToOrchestrator::IncomingExplorerResponse {
            planet_id: 6,
            explorer_id: 60,
            res: Ok(()),
        },
        PlanetToOrchestrator::OutgoingExplorerResponse {
            planet_id: 7,
            explorer_id: 70,
            res: Err("gone".to_string()),
        },
        PlanetToOrchestrator::Stopped { planet_id: 8 },
    ];
    let ids: Vec<u32> = messages.iter().map(|m| m.planet_id()).collect();
    assert_eq!(ids, vec![1, 2, 3, 4, 5, 6, 7, 8]);
}

#[test]
fn explorer_id_is_read_from_every_variant() {
    let messages = vec![
        ExplorerToPlanet::SupportedResourceRequest { explorer_id: 1 },
        ExplorerToPlanet::SupportedCombinationRequest { explorer_id: 2 },
        ExplorerToPlanet::GenerateResourceRequest {
            explorer_id: 3,
            resource: BasicResourceType::Carbon,
        },
        ExplorerToPlanet::AvailableEnergyCellRequest { explorer_id: 5 },
    ];
    let ids: Vec<u32> = messages.iter().map(|m| m.explorer_id()).collect();
    assert_eq!(ids, vec![1, 2, 3, 5]);

    let to_orchestrator: Vec<ExplorerToOrchestrator<u8>> = vec![
        ExplorerToOrchestrator::StartExplorerAIResult { explorer_id: 10 },
        ExplorerToOrchestrator::CurrentPlanetResult {
            explorer_id: 11,
            planet_id: 1,
        },
        ExplorerToOrchestrator::BagContentResponse {
            explorer_id: 12,
            bag_content: 0,
        },
        ExplorerToOrchestrator::TravelToPlanetRequest {
            explorer_id: 13,
            current_planet_id: 1,
            dst_planet_id: 2,
        },
        ExplorerToOrchestrator::GenerateResourceResponse {
            explorer_id: 14,
            generated: Err(()),
        },
    ];
    let ids: Vec<u32> = to_orchestrator.iter().map(|m| m.explorer_id()).collect();
    assert_eq!(ids, vec![10, 11, 12, 13, 14]);
}
