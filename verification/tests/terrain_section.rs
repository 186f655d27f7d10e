use scene_editor::handle::Handle;
use scene_editor::terrain::{
    MessageData, Response, SyncPlan, TerrainAction, TerrainModel, TerrainSection, TerrainSync,
    UiMessage,
};

const SECTION: Handle = Handle { index: 1, generation: 1 };
const LAYERS: Handle = Handle { index: 2, generation: 1 };
const ADD_LAYER: Handle = Handle { index: 3, generation: 1 };
const REMOVE_LAYER: Handle = Handle { index: 4, generation: 1 };
const DECAL_LAYER_INDEX: Handle = Handle { index: 5, generation: 1 };
const ELSEWHERE: Handle = Handle { index: 6, generation: 1 };

fn section() -> TerrainSection {
    TerrainSection::new(SECTION, LAYERS, ADD_LAYER, REMOVE_LAYER, DECAL_LAYER_INDEX)
}

fn terrain(layer_count: usize, decal_layer_index: u8) -> Option<TerrainModel> {
    Some(TerrainModel { layer_count, decal_layer_index })
}

fn message(destination: Handle, data: MessageData) -> UiMessage {
    UiMessage { destination, data }
}

fn plan(labels: &[&str], decal_layer_index: u8, shown_layer: Option<usize>) -> SyncPlan {
    SyncPlan {
        section: SECTION,
        visible: true,
        terrain: Some(TerrainSync {
            layers: LAYERS,
            labels: labels.iter().map(|label| label.to_string()).collect(),
            decal_field: DECAL_LAYER_INDEX,
            decal_layer_index,
            shown_layer,
        }),
    }
}

/// A section in which the given layer was selected on a terrain of eight
/// layers.
fn section_with_selected(layer: usize) -> TerrainSection {
    let mut section = section();
    section.handle_ui_message(
        &message(LAYERS, MessageData::ListSelectionChanged(Some(layer))),
        terrain(8, 0),
    );
    section
}

fn nothing(layer: Option<usize>) -> Response {
    Response {
        layer_section: layer,
        brush_layer: layer.unwrap_or(0),
        action: TerrainAction::Nothing,
    }
}

#[test]
fn a_new_section_keeps_its_widget() {
    assert_eq!(section().section, SECTION);
}

#[test]
fn sync_hides_the_section_for_a_node_that_is_no_terrain() {
    assert_eq!(
        section().sync_to_model(None),
        SyncPlan { section: SECTION, visible: false, terrain: None }
    );
}

#[test]
fn sync_shows_a_terrain_without_layers() {
    assert_eq!(section().sync_to_model(terrain(0, 0)), plan(&[], 0, None));
}

#[test]
fn sync_names_the_layers_from_zero() {
    assert_eq!(
        section().sync_to_model(terrain(3, 17)),
        plan(&["Layer 0", "Layer 1", "Layer 2"], 17, None)
    );
}

#[test]
fn sync_names_more_than_ten_layers() {
    let plan = section().sync_to_model(terrain(12, 255));
    let labels = plan.terrain.unwrap().labels;
    assert_eq!(labels.len(), 12);
    assert_eq!(labels[9], "Layer 9");
    assert_eq!(labels[10], "Layer 10");
    assert_eq!(labels[11], "Layer 11");
}

#[test]
fn sync_shows_the_selected_layer() {
    assert_eq!(
        section_with_selected(1).sync_to_model(terrain(2, 3)),
        plan(&["Layer 0", "Layer 1"], 3, Some(1))
    );
}

#[test]
fn sync_shows_no_layer_where_the_selected_one_is_gone() {
    assert_eq!(
        section_with_selected(2).sync_to_model(terrain(2, 3)),
        plan(&["Layer 0", "Layer 1"], 3, None)
    );
}

#[test]
fn a_click_on_add_layer_asks_for_a_layer() {
    let mut section = section();
    assert_eq!(
        section.handle_ui_message(&message(ADD_LAYER, MessageData::ButtonClick), terrain(2, 0)),
        Response { layer_section: None, brush_layer: 0, action: TerrainAction::AddLayer }
    );
}

#[test]
fn a_click_on_remove_layer_asks_for_the_selected_layer_to_go() {
    let mut section = section_with_selected(5);
    assert_eq!(
        section.handle_ui_message(&message(REMOVE_LAYER, MessageData::ButtonClick), terrain(8, 0)),
        Response {
            layer_section: Some(5),
            brush_layer: 5,
            action: TerrainAction::DeleteLayer(5),
        }
    );
}

#[test]
fn a_click_on_remove_layer_without_a_selection_asks_for_nothing() {
    let mut section = section();
    assert_eq!(
        section.handle_ui_message(&message(REMOVE_LAYER, MessageData::ButtonClick), terrain(8, 0)),
        nothing(None)
    );
}

#[test]
fn a_click_elsewhere_asks_for_nothing() {
    let mut section = section_with_selected(1);
    assert_eq!(
        section.handle_ui_message(&message(ELSEWHERE, MessageData::ButtonClick), terrain(8, 0)),
        nothing(Some(1))
    );
}

#[test]
fn a_new_selection_is_taken_over_and_shown() {
    let mut section = section();
    let response = section.handle_ui_message(
        &message(LAYERS, MessageData::ListSelectionChanged(Some(1))),
        terrain(2, 9),
    );
    // The layer section and the brush still go by the old selection.
    assert_eq!(
        response,
        Response {
            layer_section: None,
            brush_layer: 0,
            action: TerrainAction::Sync(plan(&["Layer 0", "Layer 1"], 9, Some(1))),
        }
    );
    // The next message goes by the new one.
    assert_eq!(
        section.handle_ui_message(&message(ELSEWHERE, MessageData::Other), terrain(2, 9)),
        nothing(Some(1))
    );
}

#[test]
fn a_selection_can_be_cleared() {
    let mut section = section_with_selected(3);
    assert_eq!(
        section.handle_ui_message(
            &message(LAYERS, MessageData::ListSelectionChanged(None)),
            terrain(1, 0)
        ),
        Response {
            layer_section: Some(3),
            brush_layer: 3,
            action: TerrainAction::Sync(plan(&["Layer 0"], 0, None)),
        }
    );
    assert_eq!(
        section.handle_ui_message(&message(ELSEWHERE, MessageData::Other), terrain(1, 0)),
        nothing(None)
    );
}

#[test]
fn the_same_selection_again_asks_for_nothing() {
    let mut section = section_with_selected(3);
    assert_eq!(
        section.handle_ui_message(
            &message(LAYERS, MessageData::ListSelectionChanged(Some(3))),
            terrain(8, 0)
        ),
        nothing(Some(3))
    );
}

#[test]
fn a_selection_in_another_list_is_not_taken_over() {
    let mut section = section_with_selected(3);
    assert_eq!(
        section.handle_ui_message(
            &message(ELSEWHERE, MessageData::ListSelectionChanged(Some(1))),
            terrain(8, 0)
        ),
        nothing(Some(3))
    );
    assert_eq!(
        section.handle_ui_message(&message(ELSEWHERE, MessageData::Other), terrain(8, 0)),
        nothing(Some(3))
    );
}

#[test]
fn a_new_decal_layer_index_is_handed_on() {
    let mut section = section();
    assert_eq!(
        section.handle_ui_message(
            &message(DECAL_LAYER_INDEX, MessageData::NumericValue(200)),
            terrain(2, 7)
        ),
        Response {
            layer_section: None,
            brush_layer: 0,
            action: TerrainAction::SetDecalLayerIndex(200),
        }
    );
}

#[test]
fn the_decal_layer_index_that_the_terrain_has_is_not_handed_on() {
    let mut section = section();
    assert_eq!(
        section.handle_ui_message(
            &message(DECAL_LAYER_INDEX, MessageData::NumericValue(7)),
            terrain(2, 7)
        ),
        nothing(None)
    );
}

#[test]
fn a_value_of_another_field_is_not_handed_on() {
    let mut section = section();
    assert_eq!(
        section.handle_ui_message(
            &message(ELSEWHERE, MessageData::NumericValue(200)),
            terrain(2, 7)
        ),
        nothing(None)
    );
}

#[test]
fn a_node_that_is_no_terrain_asks_for_nothing() {
    let mut section = section_with_selected(2);
    for data in [
        MessageData::ButtonClick,
        MessageData::ListSelectionChanged(Some(1)),
        MessageData::NumericValue(9),
        MessageData::Other,
    ] {
        for destination in [LAYERS, ADD_LAYER, REMOVE_LAYER, DECAL_LAYER_INDEX, ELSEWHERE] {
            assert_eq!(
                section.handle_ui_message(&message(destination, data), None),
                nothing(Some(2))
            );
        }
    }
}
