use crate::handle::Handle;
use crate::text::{numbered, numbered_label};
use vstd::prelude::*;

verus! {

/// What the terrain section reads of a terrain node.
#[derive(Clone, Copy, Debug, PartialEq, Eq, Structural)]
pub struct TerrainModel {
    pub layer_count: usize,
    pub decal_layer_index: u8,
}

/// What a message of the user interface says, as far as the section reads it.
/// The value of a numeric field comes as the byte nearest to it.
#[derive(Clone, Copy, Debug, PartialEq, Eq, Structural)]
pub enum MessageData {
    ButtonClick,
    ListSelectionChanged(Option<usize>),
    NumericValue(u8),
    Other,
}

/// A message of the user interface and the widget that it went to.
#[derive(Clone, Copy, Debug, PartialEq, Eq, Structural)]
pub struct UiMessage {
    pub destination: Handle,
    pub data: MessageData,
}

/// What the widgets of a terrain are to show.
#[derive(Debug, PartialEq, Eq)]
pub struct TerrainSync {
    /// The list of layers.
    pub layers: Handle,
    /// The text of each item of the list, in order.
    pub labels: Vec<String>,
    /// The field of the decal layer index.
    pub decal_field: Handle,
    /// The value that the field shows.
    pub decal_layer_index: u8,
    /// The layer whose properties the layer section shows, if any.
    pub shown_layer: Option<usize>,
}

/// What the section is to show for a node: whether it is visible at all
/// and, where the node is a terrain, what its widgets hold.
#[derive(Debug, PartialEq, Eq)]
pub struct SyncPlan {
    pub section: Handle,
    pub visible: bool,
    pub terrain: Option<TerrainSync>,
}

/// What a message asks of the scene or of the section.
#[derive(Debug, PartialEq, Eq)]
pub enum TerrainAction {
    Nothing,
    AddLayer,
    DeleteLayer(usize),
    SetDecalLayerIndex(u8),
    Sync(SyncPlan),
}

/// The answer of the section to a message.
#[derive(Debug, PartialEq, Eq)]
pub struct Response {
    /// The layer whose section sees the message too, if one is selected.
    pub layer_section: Option<usize>,
    /// The layer that a brush that draws on a mask draws on.
    pub brush_layer: usize,
    pub action: TerrainAction,
}

/// The section of the sidebar that edits a terrain: the list of its layers,
/// the buttons that add and remove one, and the field of the decal layer
/// index.
#[derive(Debug)]
pub struct TerrainSection {
    pub section: Handle,
    layers: Handle,
    add_layer: Handle,
    remove_layer: Handle,
    current_layer: Option<usize>,
    decal_layer_index: Handle,
}

/// The widgets of a terrain section and the layer selected in it.
pub struct TerrainSectionView {
    pub section: Handle,
    pub layers: Handle,
    pub add_layer: Handle,
    pub remove_layer: Handle,
    pub current_layer: Option<usize>,
    pub decal_layer_index: Handle,
}

/// The text of the list item of a layer.
pub open spec fn layer_label(index: nat) -> Seq<char> {
    numbered("Layer"@, index)
}

/// The layer that the layer section shows: the selected one, where the
/// terrain has it.
pub open spec fn shown_layer(current_layer: Option<usize>, layer_count: usize) -> Option<usize> {
    match current_layer {
        Some(index) => if index < layer_count {
            Some(index)
        } else {
            None
        },
        None => None,
    }
}

impl TerrainSync {
    /// The widgets are those of the section and hold what the terrain says.
    pub open spec fn shows(self, section: TerrainSectionView, terrain: TerrainModel) -> bool {
        &&& self.layers == section.layers
        &&& self.labels@.len() == terrain.layer_count
        &&& forall|i: int|
            0 <= i < terrain.layer_count ==> (#[trigger] self.labels@[i])@ == layer_label(i as nat)
        &&& self.decal_field == section.decal_layer_index
        &&& self.decal_layer_index == terrain.decal_layer_index
        &&& self.shown_layer == shown_layer(section.current_layer, terrain.layer_count)
    }
}

impl SyncPlan {
    /// The plan is the one for this section and this node.
    pub open spec fn shows(
        self,
        section: TerrainSectionView,
        terrain: Option<TerrainModel>,
    ) -> bool {
        &&& self.section == section.section
        &&& self.visible == (terrain is Some)
        &&& match terrain {
            Some(terrain) => self.terrain is Some && self.terrain->0.shows(section, terrain),
            None => self.terrain is None,
        }
    }
}

impl TerrainSectionView {
    /// The layer selected after a message.
    pub open spec fn selection_after(
        self,
        message: UiMessage,
        terrain: Option<TerrainModel>,
    ) -> Option<usize> {
        match message.data {
            MessageData::ListSelectionChanged(selection) => if terrain is Some
                && message.destination == self.layers {
                selection
            } else {
                self.current_layer
            },
            _ => self.current_layer,
        }
    }

    /// The message selects another layer than the one selected.
    pub open spec fn changes_selection(
        self,
        message: UiMessage,
        terrain: Option<TerrainModel>,
    ) -> bool {
        self.selection_after(message, terrain) != self.current_layer
    }

    /// What a message asks for, but for the plan of a new selection.
    pub open spec fn command_for(
        self,
        message: UiMessage,
        terrain: Option<TerrainModel>,
    ) -> TerrainAction {
        match terrain {
            None => TerrainAction::Nothing,
            Some(terrain) => match message.data {
                MessageData::ButtonClick => if message.destination == self.add_layer {
                    TerrainAction::AddLayer
                } else if message.destination == self.remove_layer {
                    match self.current_layer {
                        Some(index) => TerrainAction::DeleteLayer(index),
                        None => TerrainAction::Nothing,
                    }
                } else {
                    TerrainAction::Nothing
                },
                MessageData::NumericValue(index) => if message.destination
                    == self.decal_layer_index && index != terrain.decal_layer_index {
                    TerrainAction::SetDecalLayerIndex(index)
                } else {
                    TerrainAction::Nothing
                },
                _ => TerrainAction::Nothing,
            },
        }
    }
}

impl View for TerrainSection {
    type V = TerrainSectionView;

    closed spec fn view(&self) -> TerrainSectionView {
        TerrainSectionView {
            section: self.section,
            layers: self.layers,
            add_layer: self.add_layer,
            remove_layer: self.remove_layer,
            current_layer: self.current_layer,
            decal_layer_index: self.decal_layer_index,
        }
    }
}

impl TerrainSection {
    /// A section over the given widgets, with no layer selected.
    pub fn new(
        section: Handle,
        layers: Handle,
        add_layer: Handle,
        remove_layer: Handle,
        decal_layer_index: Handle,
    ) -> (terrain_section: TerrainSection)
        ensures
            terrain_section@ == (TerrainSectionView {
                section,
                layers,
                add_layer,
                remove_layer,
                current_layer: None,
                decal_layer_index,
            }),
    {
        TerrainSection {
            section,
            layers,
            add_layer,
            remove_layer,
            current_layer: None,
            decal_layer_index,
        }
    }

    /// What the section is to show for a node, which is a terrain or not:
    /// the section is visible for a terrain alone; the list then holds one
    /// item for each layer, named `Layer` and the number of the layer from
    /// zero.
    pub fn sync_to_model(&self, terrain: Option<TerrainModel>) -> (plan: SyncPlan)
        ensures
            plan.shows(self@, terrain),
    {
        match terrain {
            Some(terrain) => {
                let mut labels: Vec<String> = Vec::new();
                let mut i: usize = 0;
                while i < terrain.layer_count
                    invariant
                        i <= terrain.layer_count,
                        labels@.len() == i,
                        forall|j: int|
                            0 <= j < i ==> (#[trigger] labels@[j])@ == layer_label(j as nat),
                    decreases terrain.layer_count - i,
                {
                    labels.push(numbered_label("Layer", i));
                    i += 1;
                }
                let shown_layer = match self.current_layer {
                    Some(index) => if index < terrain.layer_count {
                        Some(index)
                    } else {
                        None
                    },
                    None => None,
                };
                SyncPlan {
                    section: self.section,
                    visible: true,
                    terrain: Some(
                        TerrainSync {
                            layers: self.layers,
                            labels,
                            decal_field: self.decal_layer_index,
                            decal_layer_index: terrain.decal_layer_index,
                            shown_layer,
                        },
                    ),
                }
            },
            None => SyncPlan { section: self.section, visible: false, terrain: None },
        }
    }

    /// Answers a message for a node, which is a terrain or not.
    ///
    /// The layer section and the brush go by the layer that was selected
    /// when the message came. For a terrain, a click on a button asks for a
    /// layer to be added, or for the selected one to be removed; a new
    /// selection in the list is taken over and the section shown anew; a
    /// new value of the decal layer index is handed on where it differs
    /// from the terrain's.
    pub fn handle_ui_message(
        &mut self,
        message: &UiMessage,
        terrain: Option<TerrainModel>,
    ) -> (response: Response)
        ensures
            final(self)@ == (TerrainSectionView {
                current_layer: old(self)@.selection_after(*message, terrain),
                ..old(self)@
            }),
            response.layer_section == old(self)@.current_layer,
            response.brush_layer == match old(self)@.current_layer {
                Some(index) => index,
                None => 0,
            },
            old(self)@.changes_selection(*message, terrain) ==> response.action is Sync
                && response.action->Sync_0.shows(final(self)@, terrain),
            !old(self)@.changes_selection(*message, terrain) ==> response.action
                == old(self)@.command_for(*message, terrain),
    {
        let layer_section = self.current_layer;
        let brush_layer = match self.current_layer {
            Some(index) => index,
            None => 0,
        };
        let mut action = TerrainAction::Nothing;
        if let Some(model) = terrain {
            match message.data {
                MessageData::ButtonClick => {
                    if message.destination == self.add_layer {
                        action = TerrainAction::AddLayer;
                    } else if message.destination == self.remove_layer {
                        if let Some(index) = self.current_layer {
                            action = TerrainAction::DeleteLayer(index);
                        }
                    }
                },
                MessageData::ListSelectionChanged(layer_index) => {
                    if message.destination == self.layers && !same_layer(
                        self.current_layer,
                        layer_index,
                    ) {
                        self.current_layer = layer_index;
                        action = TerrainAction::Sync(self.sync_to_model(terrain));
                    }
                },
                MessageData::NumericValue(index) => {
                    if message.destination == self.decal_layer_index && index
                        != model.decal_layer_index {
                        action = TerrainAction::SetDecalLayerIndex(index);
                    }
                },
                MessageData::Other => {},
            }
        }
        Response { layer_section, brush_layer, action }
    }
}

/// Whether two selections are the same.
fn same_layer(a: Option<usize>, b: Option<usize>) -> (same: bool)
    ensures
        same == (a == b),
{
    match (a, b) {
        (Some(x), Some(y)) => x == y,
        (None, None) => true,
        _ => false,
    }
}

} // verus!
